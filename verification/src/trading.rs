//! The secondary market: allowances, transfers between holders and sell
//! orders.
use vstd::prelude::*;

use crate::arith::{checked_add_u32, checked_sub_u32};
use crate::events::{
    Effect, Event, EventApproval, EventOrderCancelled, EventOrderFilled, EventOrderPlaced,
    EventTransfer, EventTransferFeeCollected,
};
use crate::laws::{lemma_fee_in_transfer_effects, transfer_fee_due};
use crate::market::{MarketView, RwaMarketplace, FN_SELL_ORDER, FN_TRANSFER, FN_TRANSFER_FROM};
use crate::table::KeyedTable;
use crate::types::{AccountId, AllowanceKey, MarketError, SellOrder};

verus! {

/// Basis points in a whole.
pub const BPS_DENOMINATOR: i128 = 10000;

/// Integer division rounding toward zero.
pub open spec fn div_toward_zero(a: int, b: int) -> int {
    if a >= 0 {
        a / b
    } else {
        -((-a) / b)
    }
}

impl MarketView {
    /// The balances after `amount` shares leave `from` and reach `to`; a
    /// transfer to oneself leaves the balances as they are.
    pub open spec fn moved(self, from: AccountId, to: AccountId, amount: u32) -> Map<AccountId, u32> {
        if from == to {
            self.balances
        } else {
            self.balances.insert(from, (self.balance(from) - amount) as u32).insert(
                to,
                (self.balance(to) + amount) as u32,
            )
        }
    }

    /// Why `transfer_shares` is refused, if it is.
    pub open spec fn transfer_refusal(self, from: AccountId, to: AccountId, amount: u32) -> Option<MarketError> {
        if self.reentrancy_guard {
            Some(MarketError::Reentrancy)
        } else if self.fn_paused(FN_TRANSFER) {
            Some(MarketError::TransfersPaused)
        } else if self.circuit_breaker_triggered {
            Some(MarketError::CircuitBreakerActive)
        } else if amount == 0 {
            Some(MarketError::TransferAmountZero)
        } else if amount > self.balance(from) {
            Some(MarketError::InsufficientShares)
        } else if self.balance(to) + amount > u32::MAX {
            Some(MarketError::ArithmeticOverflow)
        } else {
            None
        }
    }

    /// The fee charged on a transfer of `amount` shares at `price`: the value
    /// times the fee rate in basis points, rounded toward zero.
    pub open spec fn fee_for(self, price: i128, amount: u32) -> int {
        div_toward_zero(price * amount * self.transfer_fee_bps, BPS_DENOMINATOR as int)
    }

    /// Why `transfer_shares_from` is refused, if it is.
    pub open spec fn transfer_from_refusal(
        self,
        spender: AccountId,
        from: AccountId,
        to: AccountId,
        amount: u32,
        oracle_reply: Option<i128>,
    ) -> Option<MarketError> {
        let price = self.price_from(oracle_reply).0;
        if self.reentrancy_guard {
            Some(MarketError::Reentrancy)
        } else if self.fn_paused(FN_TRANSFER_FROM) {
            Some(MarketError::TransfersFromPaused)
        } else if self.circuit_breaker_triggered {
            Some(MarketError::CircuitBreakerActive)
        } else if amount == 0 {
            Some(MarketError::TransferAmountZero)
        } else if amount > self.allowance(from, spender) {
            Some(MarketError::AllowanceExceeded)
        } else if amount > self.balance(from) {
            Some(MarketError::InsufficientShares)
        } else if self.transfer_fee_bps > 0 && self.transfer_fee_collector is None {
            Some(MarketError::FeeCollectorNotConfigured)
        } else if self.transfer_fee_bps > 0 && self.price_per_share is None {
            Some(MarketError::NotInitialized)
        } else if self.transfer_fee_bps > 0 && !(i128::MIN <= price * amount <= i128::MAX) {
            Some(MarketError::ArithmeticOverflow)
        } else if self.transfer_fee_bps > 0 && !(i128::MIN <= price * amount * self.transfer_fee_bps
            <= i128::MAX) {
            Some(MarketError::ArithmeticOverflow)
        } else if self.transfer_fee_bps > 0 && self.fee_for(price, amount) > 0
            && self.payment_token is None {
            Some(MarketError::NotInitialized)
        } else if self.balance(to) + amount > u32::MAX {
            Some(MarketError::ArithmeticOverflow)
        } else {
            None
        }
    }

    /// The effects of the fee of a transfer by `spender` of shares of `from`.
    pub open spec fn fee_effects(
        self,
        spender: AccountId,
        from: AccountId,
        amount: u32,
        oracle_reply: Option<i128>,
    ) -> Seq<Effect> {
        let price = self.price_from(oracle_reply).0;
        let fee = self.fee_for(price, amount) as i128;
        let collector = self.transfer_fee_collector.unwrap();
        if self.transfer_fee_bps == 0 {
            seq![]
        } else if fee > 0 {
            self.price_effects(oracle_reply) + seq![
                Effect::Transfer {
                    token: self.payment_token.unwrap(),
                    from: spender,
                    to: collector,
                    amount: fee,
                },
                Effect::Emit(
                    Event::TransferFeeCollected(
                        EventTransferFeeCollected { from, amount: fee, fee_collector: collector },
                    ),
                ),
            ]
        } else {
            self.price_effects(oracle_reply)
        }
    }

    /// Why `place_sell_order` is refused, if it is.
    pub open spec fn place_order_refusal(self, seller: AccountId, amount: u32, price_per_share: i128) -> Option<
        MarketError,
    > {
        if self.fn_paused(FN_SELL_ORDER) {
            Some(MarketError::SellOrdersPaused)
        } else if self.circuit_breaker_triggered {
            Some(MarketError::CircuitBreakerActive)
        } else if amount == 0 {
            Some(MarketError::OrderAmountZero)
        } else if price_per_share <= 0 {
            Some(MarketError::OrderPriceNotPositive)
        } else if amount > self.balance(seller) {
            Some(MarketError::InsufficientLiquidShares)
        } else {
            None
        }
    }

    /// The order id after `id`: the next number, wrapping to zero after the
    /// largest.
    pub open spec fn following_order_id(id: u64) -> u64 {
        if id == u64::MAX {
            0
        } else {
            (id + 1) as u64
        }
    }

    /// Why `cancel_sell_order` is refused, if it is.
    pub open spec fn cancel_order_refusal(self, order_id: u64) -> Option<MarketError> {
        if !self.sell_orders.contains_key(order_id) {
            Some(MarketError::OrderNotFound)
        } else if self.balance(self.sell_orders[order_id].seller) + self.sell_orders[order_id].amount
            > u32::MAX {
            Some(MarketError::ArithmeticOverflow)
        } else {
            None
        }
    }

    /// Why `buy_from_order` is refused, if it is.
    pub open spec fn buy_order_refusal(self, buyer: AccountId, order_id: u64, amount: u32) -> Option<
        MarketError,
    > {
        let order = self.sell_orders[order_id];
        if amount == 0 {
            Some(MarketError::PurchaseAmountZero)
        } else if !self.sell_orders.contains_key(order_id) {
            Some(MarketError::OrderNotFound)
        } else if amount > order.amount {
            Some(MarketError::AmountExceedsOrder)
        } else if !(i128::MIN <= order.price_per_share * amount <= i128::MAX) {
            Some(MarketError::ArithmeticOverflow)
        } else if self.payment_token is None {
            Some(MarketError::NotInitialized)
        } else if self.balance(buyer) + amount > u32::MAX {
            Some(MarketError::ArithmeticOverflow)
        } else {
            None
        }
    }
}

impl RwaMarketplace {
    fn allowance_of(&self, owner: AccountId, spender: AccountId) -> (r: u32)
        ensures
            r == self@.allowance(owner, spender),
    {
        match self.allowances.get(&AllowanceKey { owner, spender }) {
            Some(a) => *a,
            None => 0,
        }
    }

    /// Allows `spender` to move up to `amount` shares of `owner`.
    pub fn approve(&mut self, owner: AccountId, spender: AccountId, amount: u32) -> (r: Vec<Effect>)
        ensures
            final(self)@ == (MarketView {
                allowances: old(self)@.allowances.insert(AllowanceKey { owner, spender }, amount),
                ..old(self)@
            }),
            r@ == seq![
                Effect::RequireAuth(owner),
                Effect::Emit(Event::Approval(EventApproval { owner, spender, amount })),
            ],
            old(self).shares_conserved() ==> final(self).shares_conserved(),
    {
        self.allowances.insert(AllowanceKey { owner, spender }, amount);
        let mut effects: Vec<Effect> = Vec::new();
        effects.push(Effect::RequireAuth(owner));
        effects.push(Effect::Emit(Event::Approval(EventApproval { owner, spender, amount })));
        effects
    }

    /// How many shares `spender` may move on behalf of `owner`.
    pub fn allowance(&self, owner: AccountId, spender: AccountId) -> (r: u32)
        ensures
            r == self@.allowance(owner, spender),
    {
        self.allowance_of(owner, spender)
    }

    /// Writes the balances of a transfer: `from` loses `amount` and `to`
    /// gains it; shares sent to oneself stay where they are.
    fn move_shares(&mut self, from: AccountId, to: AccountId, from_balance: u32, to_balance: u32, amount: u32)
        requires
            from_balance == old(self)@.balance(from),
            to_balance == old(self)@.balance(to),
            amount <= from_balance,
            to_balance + amount <= u32::MAX,
        ensures
            final(self)@ == (MarketView { balances: old(self)@.moved(from, to, amount), ..old(self)@ }),
            final(self).circulating() == old(self).circulating(),
            final(self).sell_orders == old(self).sell_orders,
            final(self).vesting == old(self).vesting,
            final(self).bridge_locked == old(self).bridge_locked,
    {
        if from == to {
            return;
        }
        let ghost pre = *self;
        self.balances.insert(from, checked_sub_u32(from_balance, amount));
        let ghost mid = self.balances;
        self.balances.insert(to, checked_add_u32(to_balance, amount));
        proof {
            KeyedTable::<AccountId, u32>::lemma_insert_weight(pre.balances, mid, from, (from_balance - amount) as u32);
            KeyedTable::<AccountId, u32>::lemma_insert_weight(mid, self.balances, to, (to_balance + amount) as u32);
        }
    }

    /// Moves `amount` shares from `from` to `to`, whether or not `to` is
    /// whitelisted. The reentrancy guard stays held until the host calls
    /// `release_reentrancy_guard`.
    pub fn transfer_shares(&mut self, from: AccountId, to: AccountId, amount: u32) -> (r: Result<Vec<Effect>, MarketError>)
        ensures
            match r {
                Err(e) => {
                    &&& old(self)@.transfer_refusal(from, to, amount) == Some(e)
                    &&& final(self)@ == old(self)@
                },
                Ok(effects) => {
                    let pre = old(self)@;
                    &&& pre.transfer_refusal(from, to, amount) is None
                    &&& final(self)@ == (MarketView {
                        balances: pre.moved(from, to, amount),
                        holders: pre.holders_with(to),
                        reentrancy_guard: true,
                        ..pre
                    })
                    &&& effects@ == seq![
                        Effect::RequireAuth(from),
                        Effect::Emit(Event::Transfer(EventTransfer { from, to, amount })),
                    ]
                },
            },
            old(self).shares_conserved() ==> final(self).shares_conserved(),
    {
        if self.reentrancy_guard {
            return Err(MarketError::Reentrancy);
        }
        if self.fn_paused(FN_TRANSFER) {
            return Err(MarketError::TransfersPaused);
        }
        if self.circuit_breaker_triggered {
            return Err(MarketError::CircuitBreakerActive);
        }
        if amount == 0 {
            return Err(MarketError::TransferAmountZero);
        }
        let from_balance = self.balance_of(from);
        if amount > from_balance {
            return Err(MarketError::InsufficientShares);
        }
        let to_balance = self.balance_of(to);
        if to_balance.checked_add(amount).is_none() {
            return Err(MarketError::ArithmeticOverflow);
        }
        self.reentrancy_guard = true;
        self.move_shares(from, to, from_balance, to_balance, amount);
        self.register_holder(to);
        let mut effects: Vec<Effect> = Vec::new();
        effects.push(Effect::RequireAuth(from));
        effects.push(Effect::Emit(Event::Transfer(EventTransfer { from, to, amount })));
        Ok(effects)
    }

    /// Moves `amount` shares from `from` to `to` (whitelisted or not) on the
    /// allowance of `spender`, charging `spender` the transfer fee in the
    /// payment token when one is configured. The reentrancy guard stays held
    /// until the host calls `release_reentrancy_guard`.
    pub fn transfer_shares_from(
        &mut self,
        spender: AccountId,
        from: AccountId,
        to: AccountId,
        amount: u32,
        oracle_reply: Option<i128>,
    ) -> (r: Result<Vec<Effect>, MarketError>)
        ensures
            match r {
                Err(e) => {
                    &&& old(self)@.transfer_from_refusal(spender, from, to, amount, oracle_reply)
                        == Some(e)
                    &&& final(self)@ == old(self)@
                },
                Ok(effects) => {
                    let pre = old(self)@;
                    &&& pre.transfer_from_refusal(spender, from, to, amount, oracle_reply) is None
                    &&& final(self)@ == (MarketView {
                        allowances: pre.allowances.insert(
                            AllowanceKey { owner: from, spender },
                            (pre.allowance(from, spender) - amount) as u32,
                        ),
                        balances: pre.moved(from, to, amount),
                        holders: pre.holders_with(to),
                        reentrancy_guard: true,
                        ..pre
                    })
                    &&& effects@ == seq![Effect::RequireAuth(spender)] + pre.fee_effects(
                        spender,
                        from,
                        amount,
                        oracle_reply,
                    ) + seq![Effect::Emit(Event::Transfer(EventTransfer { from, to, amount }))]
                },
            },
            old(self).shares_conserved() ==> final(self).shares_conserved(),
            match r {
                Ok(effects) => old(self)@.transfer_fee_bps > 0 ==> ({
                    let fee = transfer_fee_due(old(self)@, amount, oracle_reply);
                    let charge = Effect::Transfer {
                        token: old(self)@.payment_token.unwrap(),
                        from: spender,
                        to: old(self)@.transfer_fee_collector.unwrap(),
                        amount: fee as i128,
                    };
                    &&& fee > 0 ==> effects@.contains(charge)
                    &&& forall|i: int|
                        0 <= i < effects@.len() && (#[trigger] effects@[i]) is Transfer ==> fee > 0
                            && effects@[i] == charge
                }),
                Err(_) => true,
            },
    {
        if self.reentrancy_guard {
            return Err(MarketError::Reentrancy);
        }
        if self.fn_paused(FN_TRANSFER_FROM) {
            return Err(MarketError::TransfersFromPaused);
        }
        if self.circuit_breaker_triggered {
            return Err(MarketError::CircuitBreakerActive);
        }
        if amount == 0 {
            return Err(MarketError::TransferAmountZero);
        }
        let current_allowance = self.allowance_of(from, spender);
        if amount > current_allowance {
            return Err(MarketError::AllowanceExceeded);
        }
        let from_balance = self.balance_of(from);
        if amount > from_balance {
            return Err(MarketError::InsufficientShares);
        }
        let to_balance = self.balance_of(to);
        let mut effects: Vec<Effect> = Vec::new();
        effects.push(Effect::RequireAuth(spender));
        let fee_bps = self.transfer_fee_bps;
        if fee_bps > 0 {
            let fee_collector = match self.transfer_fee_collector {
                Some(c) => c,
                None => {
                    return Err(MarketError::FeeCollectorNotConfigured);
                },
            };
            if self.price_per_share.is_none() {
                return Err(MarketError::NotInitialized);
            }
            let (price, price_event) = self.price_for_purchase(oracle_reply);
            let transfer_value = match price.checked_mul(amount as i128) {
                Some(v) => v,
                None => {
                    return Err(MarketError::ArithmeticOverflow);
                },
            };
            let scaled = match transfer_value.checked_mul(fee_bps as i128) {
                Some(v) => v,
                None => {
                    return Err(MarketError::ArithmeticOverflow);
                },
            };
            let fee_amount = scaled / BPS_DENOMINATOR;
            match price_event {
                Some(e) => effects.push(Effect::Emit(e)),
                None => {},
            }
            if fee_amount > 0 {
                let token = match self.payment_token {
                    Some(t) => t,
                    None => {
                        return Err(MarketError::NotInitialized);
                    },
                };
                effects.push(Effect::Transfer { token, from: spender, to: fee_collector, amount: fee_amount });
                effects.push(Effect::Emit(Event::TransferFeeCollected(EventTransferFeeCollected {
                    from,
                    amount: fee_amount,
                    fee_collector,
                })));
            }
        }
        if to_balance.checked_add(amount).is_none() {
            return Err(MarketError::ArithmeticOverflow);
        }
        let ghost pre = *self;
        self.reentrancy_guard = true;
        self.allowances.insert(AllowanceKey { owner: from, spender }, current_allowance - amount);
        self.move_shares(from, to, from_balance, to_balance, amount);
        self.register_holder(to);
        effects.push(Effect::Emit(Event::Transfer(EventTransfer { from, to, amount })));
        proof {
            assert(effects@ =~= seq![Effect::RequireAuth(spender)] + pre@.fee_effects(spender, from, amount, oracle_reply)
                + seq![Effect::Emit(Event::Transfer(EventTransfer { from, to, amount }))]);
            if pre@.transfer_fee_bps > 0 {
                lemma_fee_in_transfer_effects(pre@, spender, from, to, amount, oracle_reply);
            }
        }
        Ok(effects)
    }

    /// Lists `amount` liquid shares of `seller` for sale at
    /// `price_per_share`; the shares are escrowed until the order is filled
    /// or cancelled. Returns the order's id.
    pub fn place_sell_order(&mut self, seller: AccountId, amount: u32, price_per_share: i128) -> (r: Result<(u64, Vec<Effect>), MarketError>)
        ensures
            match r {
                Err(e) => {
                    &&& old(self)@.place_order_refusal(seller, amount, price_per_share) == Some(e)
                    &&& final(self)@ == old(self)@
                },
                Ok((order_id, effects)) => {
                    let pre = old(self)@;
                    &&& pre.place_order_refusal(seller, amount, price_per_share) is None
                    &&& order_id == pre.next_order_id
                    &&& final(self)@ == (MarketView {
                        balances: pre.balances.insert(seller, (pre.balance(seller) - amount) as u32),
                        next_order_id: MarketView::following_order_id(order_id),
                        sell_orders: pre.sell_orders.insert(
                            order_id,
                            SellOrder { seller, amount, price_per_share },
                        ),
                        ..pre
                    })
                    &&& effects@ == seq![
                        Effect::RequireAuth(seller),
                        Effect::Emit(
                            Event::OrderPlaced(
                                EventOrderPlaced { order_id, seller, amount, price_per_share },
                            ),
                        ),
                    ]
                },
            },
            old(self).shares_conserved() && old(self).next_order_id < u64::MAX
                ==> final(self).shares_conserved(),
    {
        if self.fn_paused(FN_SELL_ORDER) {
            return Err(MarketError::SellOrdersPaused);
        }
        if self.circuit_breaker_triggered {
            return Err(MarketError::CircuitBreakerActive);
        }
        if amount == 0 {
            return Err(MarketError::OrderAmountZero);
        }
        if price_per_share <= 0 {
            return Err(MarketError::OrderPriceNotPositive);
        }
        let balance = self.balance_of(seller);
        if amount > balance {
            return Err(MarketError::InsufficientLiquidShares);
        }
        let ghost pre = *self;
        self.balances.insert(seller, balance - amount);
        let order_id = self.next_order_id;
        let next_id = if order_id == u64::MAX {
            0
        } else {
            order_id + 1
        };
        self.next_order_id = next_id;
        let order = SellOrder { seller, amount, price_per_share };
        self.sell_orders.insert(order_id, order);
        proof {
            KeyedTable::<AccountId, u32>::lemma_insert_weight(pre.balances, self.balances, seller, (balance - amount) as u32);
            KeyedTable::<u64, SellOrder>::lemma_insert_weight(pre.sell_orders, self.sell_orders, order_id, order);
        }
        let mut effects: Vec<Effect> = Vec::new();
        effects.push(Effect::RequireAuth(seller));
        effects.push(Effect::Emit(Event::OrderPlaced(EventOrderPlaced { order_id, seller, amount, price_per_share })));
        Ok((order_id, effects))
    }

    /// Cancels an open order and returns its escrowed shares to the seller.
    pub fn cancel_sell_order(&mut self, order_id: u64) -> (r: Result<Vec<Effect>, MarketError>)
        ensures
            match r {
                Err(e) => {
                    &&& old(self)@.cancel_order_refusal(order_id) == Some(e)
                    &&& final(self)@ == old(self)@
                },
                Ok(effects) => {
                    let pre = old(self)@;
                    let order = pre.sell_orders[order_id];
                    &&& pre.cancel_order_refusal(order_id) is None
                    &&& final(self)@ == (MarketView {
                        balances: pre.balances.insert(
                            order.seller,
                            (pre.balance(order.seller) + order.amount) as u32,
                        ),
                        sell_orders: pre.sell_orders.remove(order_id),
                        ..pre
                    })
                    &&& effects@ == seq![
                        Effect::RequireAuth(order.seller),
                        Effect::Emit(
                            Event::OrderCancelled(
                                EventOrderCancelled { order_id, seller: order.seller },
                            ),
                        ),
                    ]
                },
            },
            old(self).shares_conserved() ==> final(self).shares_conserved(),
    {
        let order = match self.sell_orders.get(&order_id) {
            Some(o) => *o,
            None => {
                return Err(MarketError::OrderNotFound);
            },
        };
        let balance = self.balance_of(order.seller);
        let new_balance = match balance.checked_add(order.amount) {
            Some(b) => b,
            None => {
                return Err(MarketError::ArithmeticOverflow);
            },
        };
        let ghost pre = *self;
        self.balances.insert(order.seller, new_balance);
        self.sell_orders.remove(&order_id);
        proof {
            KeyedTable::<AccountId, u32>::lemma_insert_weight(pre.balances, self.balances, order.seller, new_balance);
            KeyedTable::<u64, SellOrder>::lemma_remove_weight(pre.sell_orders, self.sell_orders, order_id);
        }
        let mut effects: Vec<Effect> = Vec::new();
        effects.push(Effect::RequireAuth(order.seller));
        effects.push(Effect::Emit(Event::OrderCancelled(EventOrderCancelled { order_id, seller: order.seller })));
        Ok(effects)
    }

    /// Buys `amount` shares from an open order; the buyer pays the seller
    /// directly in the payment token.
    pub fn buy_from_order(&mut self, buyer: AccountId, order_id: u64, amount: u32) -> (r: Result<Vec<Effect>, MarketError>)
        ensures
            match r {
                Err(e) => {
                    &&& old(self)@.buy_order_refusal(buyer, order_id, amount) == Some(e)
                    &&& final(self)@ == old(self)@
                },
                Ok(effects) => {
                    let pre = old(self)@;
                    let order = pre.sell_orders[order_id];
                    let cost = (order.price_per_share * amount) as i128;
                    let rest = (order.amount - amount) as u32;
                    &&& pre.buy_order_refusal(buyer, order_id, amount) is None
                    &&& final(self)@ == (MarketView {
                        balances: pre.balances.insert(buyer, (pre.balance(buyer) + amount) as u32),
                        holders: pre.holders_with(buyer),
                        sell_orders: if rest == 0 {
                            pre.sell_orders.remove(order_id)
                        } else {
                            pre.sell_orders.insert(order_id, SellOrder { amount: rest, ..order })
                        },
                        ..pre
                    })
                    &&& effects@ == seq![
                        Effect::RequireAuth(buyer),
                        Effect::Transfer {
                            token: pre.payment_token.unwrap(),
                            from: buyer,
                            to: order.seller,
                            amount: cost,
                        },
                        Effect::Emit(
                            Event::OrderFilled(EventOrderFilled { order_id, buyer, amount, total_cost: cost }),
                        ),
                    ]
                },
            },
            old(self).shares_conserved() ==> final(self).shares_conserved(),
    {
        if amount == 0 {
            return Err(MarketError::PurchaseAmountZero);
        }
        let order = match self.sell_orders.get(&order_id) {
            Some(o) => *o,
            None => {
                return Err(MarketError::OrderNotFound);
            },
        };
        if amount > order.amount {
            return Err(MarketError::AmountExceedsOrder);
        }
        let total_cost = match order.price_per_share.checked_mul(amount as i128) {
            Some(c) => c,
            None => {
                return Err(MarketError::ArithmeticOverflow);
            },
        };
        let token = match self.payment_token {
            Some(t) => t,
            None => {
                return Err(MarketError::NotInitialized);
            },
        };
        let buyer_balance = self.balance_of(buyer);
        let new_balance = match buyer_balance.checked_add(amount) {
            Some(b) => b,
            None => {
                return Err(MarketError::ArithmeticOverflow);
            },
        };
        let ghost pre = *self;
        self.balances.insert(buyer, new_balance);
        self.register_holder(buyer);
        let ghost mid = *self;
        let rest = order.amount - amount;
        if rest == 0 {
            self.sell_orders.remove(&order_id);
            proof {
                KeyedTable::<u64, SellOrder>::lemma_remove_weight(mid.sell_orders, self.sell_orders, order_id);
            }
        } else {
            let remaining = SellOrder { amount: rest, ..order };
            self.sell_orders.insert(order_id, remaining);
            proof {
                KeyedTable::<u64, SellOrder>::lemma_insert_weight(mid.sell_orders, self.sell_orders, order_id, remaining);
            }
        }
        proof {
            KeyedTable::<AccountId, u32>::lemma_insert_weight(pre.balances, mid.balances, buyer, new_balance);
        }
        let mut effects: Vec<Effect> = Vec::new();
        effects.push(Effect::RequireAuth(buyer));
        effects.push(Effect::Transfer { token, from: buyer, to: order.seller, amount: total_cost });
        effects.push(Effect::Emit(Event::OrderFilled(EventOrderFilled { order_id, buyer, amount, total_cost })));
        Ok(effects)
    }

    /// The open order with this id, if any.
    pub fn get_sell_order(&self, order_id: u64) -> (r: Option<SellOrder>)
        ensures
            r == (if self@.sell_orders.contains_key(order_id) {
                Some(self@.sell_orders[order_id])
            } else {
                None
            }),
    {
        match self.sell_orders.get(&order_id) {
            Some(o) => Some(*o),
            None => None,
        }
    }
}

} // verus!
