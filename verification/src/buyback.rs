//! Buybacks of shares into the pool: direct, automatic within a budget, and
//! requests recorded for the admin.
use vstd::prelude::*;

use crate::arith::checked_sub_u32;
use crate::events::{
    Effect, Event, EventAutoBuybackConfig, EventBuybackRequested, EventBuybackShares,
};
use crate::market::{MarketView, RwaMarketplace, FN_BUYBACK};
use crate::table::KeyedTable;
use crate::types::{AccountId, AutoBuybackConfig, BuybackRequest, MarketError};

verus! {

impl MarketView {
    /// Why `buyback_shares` is refused, if it is.
    pub open spec fn buyback_refusal(self, seller: AccountId, amount: u32, oracle_reply: Option<i128>) -> Option<
        MarketError,
    > {
        if self.fn_paused(FN_BUYBACK) {
            Some(MarketError::BuybacksPaused)
        } else if amount == 0 {
            Some(MarketError::BuybackAmountZero)
        } else if amount > self.balance(seller) {
            Some(MarketError::SellerInsufficientShares)
        } else if self.price_per_share is None {
            Some(MarketError::NotInitialized)
        } else if !(i128::MIN <= self.price_from(oracle_reply).0 * amount <= i128::MAX) {
            Some(MarketError::ArithmeticOverflow)
        } else if self.payment_token is None || self.available_shares is None {
            Some(MarketError::NotInitialized)
        } else if self.available_shares.unwrap() + amount > u32::MAX {
            Some(MarketError::ArithmeticOverflow)
        } else {
            None
        }
    }

    /// The state after a buyback of `amount` shares of `seller`.
    pub open spec fn after_buyback(self, seller: AccountId, amount: u32) -> MarketView {
        MarketView {
            balances: self.balances.insert(seller, (self.balance(seller) - amount) as u32),
            available_shares: Some((self.available_shares.unwrap() + amount) as u32),
            ..self
        }
    }

    /// The effects of a buyback of `amount` shares of `seller`.
    pub open spec fn buyback_effects(self, seller: AccountId, amount: u32, oracle_reply: Option<i128>) -> Seq<
        Effect,
    > {
        let cost = (self.price_from(oracle_reply).0 * amount) as i128;
        seq![Effect::RequireAuth(seller)] + self.price_effects(oracle_reply) + seq![
            Effect::Payout { token: self.payment_token.unwrap(), to: seller, amount: cost },
            Effect::Emit(Event::BuybackShares(EventBuybackShares { seller, amount, total_cost: cost })),
        ]
    }

    /// Why `auto_buyback_config` is refused, if it is.
    pub open spec fn auto_config_refusal(self, interval: u64, max_amount: u32, budget: i128) -> Option<
        MarketError,
    > {
        if self.admin is None {
            Some(MarketError::NotInitialized)
        } else if interval == 0 {
            Some(MarketError::IntervalNotPositive)
        } else if max_amount == 0 {
            Some(MarketError::MaxAmountZero)
        } else if budget <= 0 {
            Some(MarketError::BudgetNotPositive)
        } else {
            None
        }
    }

    /// The cost of an automatic buyback of `amount` shares at the price the
    /// seller is paid.
    pub open spec fn auto_buyback_cost(self, amount: u32, oracle_reply: Option<i128>) -> int {
        self.price_from(oracle_reply).0 * amount
    }

    /// Why `process_auto_buyback` is refused before the buyback itself.
    pub open spec fn auto_buyback_refusal(self, amount: u32, now: u64, oracle_reply: Option<i128>) -> Option<
        MarketError,
    > {
        let config = self.buyback_config.unwrap();
        if amount == 0 {
            Some(MarketError::BuybackAmountZero)
        } else if self.buyback_config is None {
            Some(MarketError::AutoBuybackNotConfigured)
        } else if now < self.last_buyback.saturating_add(config.interval) {
            Some(MarketError::AutoBuybackIntervalNotElapsed)
        } else if amount > config.max_amount {
            Some(MarketError::AmountExceedsAutoBuybackMax)
        } else if self.price_per_share is None {
            Some(MarketError::NotInitialized)
        } else if !(i128::MIN <= self.auto_buyback_cost(amount, oracle_reply) <= i128::MAX) {
            Some(MarketError::ArithmeticOverflow)
        } else if self.auto_buyback_cost(amount, oracle_reply) > self.buyback_budget {
            Some(MarketError::InsufficientAutoBuybackBudget)
        } else if !(i128::MIN <= self.buyback_budget - self.auto_buyback_cost(amount, oracle_reply)
            <= i128::MAX) {
            Some(MarketError::ArithmeticUnderflow)
        } else {
            None
        }
    }

    /// Why `request_buyback` is refused, if it is.
    pub open spec fn request_buyback_refusal(self, seller: AccountId, amount: u32) -> Option<MarketError> {
        if amount == 0 {
            Some(MarketError::BuybackAmountZero)
        } else if amount > self.balance(seller) {
            Some(MarketError::InsufficientSharesForRequest)
        } else if self.buyback_request_counter == u64::MAX {
            Some(MarketError::ArithmeticOverflow)
        } else {
            None
        }
    }
}

impl RwaMarketplace {
    /// Buys back `amount` shares of `seller` into the pool at the current
    /// price, paid from the contract's own payment-token balance.
    pub fn buyback_shares(&mut self, seller: AccountId, amount: u32, oracle_reply: Option<i128>) -> (r: Result<Vec<Effect>, MarketError>)
        ensures
            match r {
                Err(e) => {
                    &&& old(self)@.buyback_refusal(seller, amount, oracle_reply) == Some(e)
                    &&& final(self)@ == old(self)@
                },
                Ok(effects) => {
                    &&& old(self)@.buyback_refusal(seller, amount, oracle_reply) is None
                    &&& final(self)@ == old(self)@.after_buyback(seller, amount)
                    &&& effects@ == old(self)@.buyback_effects(seller, amount, oracle_reply)
                },
            },
            old(self).shares_conserved() ==> final(self).shares_conserved(),
    {
        if self.fn_paused(FN_BUYBACK) {
            return Err(MarketError::BuybacksPaused);
        }
        if amount == 0 {
            return Err(MarketError::BuybackAmountZero);
        }
        let seller_balance = self.balance_of(seller);
        if amount > seller_balance {
            return Err(MarketError::SellerInsufficientShares);
        }
        if self.price_per_share.is_none() {
            return Err(MarketError::NotInitialized);
        }
        let (price, price_event) = self.price_for_purchase(oracle_reply);
        let total_cost = match price.checked_mul(amount as i128) {
            Some(c) => c,
            None => {
                return Err(MarketError::ArithmeticOverflow);
            },
        };
        let token = match self.payment_token {
            Some(t) => t,
            None => {
                return Err(MarketError::NotInitialized);
            },
        };
        let available = match self.available_shares {
            Some(a) => a,
            None => {
                return Err(MarketError::NotInitialized);
            },
        };
        let new_available = match available.checked_add(amount) {
            Some(a) => a,
            None => {
                return Err(MarketError::ArithmeticOverflow);
            },
        };
        let ghost pre = *self;
        self.balances.insert(seller, checked_sub_u32(seller_balance, amount));
        self.available_shares = Some(new_available);
        proof {
            KeyedTable::<AccountId, u32>::lemma_insert_weight(pre.balances, self.balances, seller, (seller_balance - amount) as u32);
        }
        let mut effects: Vec<Effect> = Vec::new();
        effects.push(Effect::RequireAuth(seller));
        match price_event {
            Some(e) => effects.push(Effect::Emit(e)),
            None => {},
        }
        effects.push(Effect::Payout { token, to: seller, amount: total_cost });
        effects.push(Effect::Emit(Event::BuybackShares(EventBuybackShares { seller, amount, total_cost })));
        proof {
            assert(effects@ =~= pre@.buyback_effects(seller, amount, oracle_reply));
        }
        Ok(effects)
    }

    /// Replaces the auto-buyback configuration and resets the time of the
    /// last automatic buyback. Admin only.
    pub fn auto_buyback_config(&mut self, interval: u64, max_amount: u32, budget: i128) -> (r: Result<Vec<Effect>, MarketError>)
        ensures
            match r {
                Err(e) => {
                    &&& old(self)@.auto_config_refusal(interval, max_amount, budget) == Some(e)
                    &&& final(self)@ == old(self)@
                },
                Ok(effects) => {
                    &&& old(self)@.auto_config_refusal(interval, max_amount, budget) is None
                    &&& final(self)@ == (MarketView {
                        buyback_config: Some(AutoBuybackConfig { interval, max_amount, budget }),
                        buyback_budget: budget,
                        last_buyback: 0,
                        ..old(self)@
                    })
                    &&& effects@ == seq![
                        Effect::RequireAuth(old(self)@.admin.unwrap()),
                        Effect::Emit(
                            Event::AutoBuybackConfig(
                                EventAutoBuybackConfig { interval, max_amount, budget },
                            ),
                        ),
                    ]
                },
            },
            old(self).shares_conserved() ==> final(self).shares_conserved(),
    {
        let admin = match self.admin {
            Some(a) => a,
            None => {
                return Err(MarketError::NotInitialized);
            },
        };
        if interval == 0 {
            return Err(MarketError::IntervalNotPositive);
        }
        if max_amount == 0 {
            return Err(MarketError::MaxAmountZero);
        }
        if budget <= 0 {
            return Err(MarketError::BudgetNotPositive);
        }
        self.buyback_config = Some(AutoBuybackConfig { interval, max_amount, budget });
        self.buyback_budget = budget;
        self.last_buyback = 0;
        let mut effects: Vec<Effect> = Vec::new();
        effects.push(Effect::RequireAuth(admin));
        effects.push(Effect::Emit(Event::AutoBuybackConfig(EventAutoBuybackConfig { interval, max_amount, budget })));
        Ok(effects)
    }

    /// Buys back `amount` shares of `seller` automatically, once the
    /// configured interval has elapsed since the last automatic buyback, up
    /// to the configured maximum and within the remaining budget, which is
    /// charged the cost at the price the seller is paid. Anyone may trigger
    /// it; the seller must authorize the buyback itself.
    pub fn process_auto_buyback(&mut self, seller: AccountId, amount: u32, now: u64, oracle_reply: Option<i128>) -> (r: Result<Vec<Effect>, MarketError>)
        ensures
            ({
                let pre = old(self)@;
                let auto = pre.auto_buyback_refusal(amount, now, oracle_reply);
                let direct = pre.buyback_refusal(seller, amount, oracle_reply);
                match r {
                    Err(e) => {
                        &&& (auto == Some(e) || (auto is None && direct == Some(e)))
                        &&& final(self)@ == pre
                    },
                    Ok(effects) => {
                        &&& auto is None
                        &&& direct is None
                        &&& final(self)@ == (MarketView {
                            buyback_budget: (pre.buyback_budget - pre.auto_buyback_cost(
                                amount,
                                oracle_reply,
                            )) as i128,
                            last_buyback: now,
                            ..pre.after_buyback(seller, amount)
                        })
                        &&& effects@ == pre.buyback_effects(seller, amount, oracle_reply)
                    },
                }
            }),
            old(self).shares_conserved() ==> final(self).shares_conserved(),
    {
        if amount == 0 {
            return Err(MarketError::BuybackAmountZero);
        }
        let config = match self.buyback_config {
            Some(c) => c,
            None => {
                return Err(MarketError::AutoBuybackNotConfigured);
            },
        };
        if now < self.last_buyback.saturating_add(config.interval) {
            return Err(MarketError::AutoBuybackIntervalNotElapsed);
        }
        if amount > config.max_amount {
            return Err(MarketError::AmountExceedsAutoBuybackMax);
        }
        if self.price_per_share.is_none() {
            return Err(MarketError::NotInitialized);
        }
        let (price, _) = self.price_for_purchase(oracle_reply);
        let total_cost = match price.checked_mul(amount as i128) {
            Some(c) => c,
            None => {
                return Err(MarketError::ArithmeticOverflow);
            },
        };
        let remaining_budget = self.buyback_budget;
        if total_cost > remaining_budget {
            return Err(MarketError::InsufficientAutoBuybackBudget);
        }
        let new_budget = match remaining_budget.checked_sub(total_cost) {
            Some(b) => b,
            None => {
                return Err(MarketError::ArithmeticUnderflow);
            },
        };
        let effects = match self.buyback_shares(seller, amount, oracle_reply) {
            Ok(e) => e,
            Err(e) => {
                return Err(e);
            },
        };
        self.buyback_budget = new_budget;
        self.last_buyback = now;
        Ok(effects)
    }

    /// The auto-buyback configuration, if one is set.
    pub fn get_buyback_config(&self) -> (r: Option<AutoBuybackConfig>)
        ensures
            r == self@.buyback_config,
    {
        self.buyback_config
    }

    /// Records a request of `seller` to have `amount` shares bought back at
    /// `requested_price`, and returns its id.
    pub fn request_buyback(&mut self, seller: AccountId, amount: u32, requested_price: i128, now: u64) -> (r: Result<(u64, Vec<Effect>), MarketError>)
        ensures
            match r {
                Err(e) => {
                    &&& old(self)@.request_buyback_refusal(seller, amount) == Some(e)
                    &&& final(self)@ == old(self)@
                },
                Ok((request_id, effects)) => {
                    let pre = old(self)@;
                    &&& pre.request_buyback_refusal(seller, amount) is None
                    &&& request_id == pre.buyback_request_counter + 1
                    &&& final(self)@ == (MarketView {
                        buyback_request_counter: request_id,
                        buyback_requests: pre.buyback_requests.insert(
                            request_id,
                            BuybackRequest { request_id, seller, amount, requested_price, timestamp: now },
                        ),
                        ..pre
                    })
                    &&& effects@ == seq![
                        Effect::RequireAuth(seller),
                        Effect::Emit(
                            Event::BuybackRequested(EventBuybackRequested { request_id, seller, amount }),
                        ),
                    ]
                },
            },
            old(self).shares_conserved() ==> final(self).shares_conserved(),
    {
        if amount == 0 {
            return Err(MarketError::BuybackAmountZero);
        }
        let seller_balance = self.balance_of(seller);
        if amount > seller_balance {
            return Err(MarketError::InsufficientSharesForRequest);
        }
        if self.buyback_request_counter == u64::MAX {
            return Err(MarketError::ArithmeticOverflow);
        }
        let counter = self.buyback_request_counter + 1;
        self.buyback_request_counter = counter;
        self.buyback_requests.insert(
            counter,
            BuybackRequest { request_id: counter, seller, amount, requested_price, timestamp: now },
        );
        let mut effects: Vec<Effect> = Vec::new();
        effects.push(Effect::RequireAuth(seller));
        effects.push(Effect::Emit(Event::BuybackRequested(EventBuybackRequested { request_id: counter, seller, amount })));
        Ok((counter, effects))
    }

    /// The buyback request with this id, if any.
    pub fn get_buyback_request(&self, request_id: u64) -> (r: Option<BuybackRequest>)
        ensures
            r == (if self@.buyback_requests.contains_key(request_id) {
                Some(self@.buyback_requests[request_id])
            } else {
                None
            }),
    {
        match self.buyback_requests.get(&request_id) {
            Some(q) => Some(*q),
            None => None,
        }
    }
}

} // verus!
