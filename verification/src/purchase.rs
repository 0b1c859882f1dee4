//! Initialization and purchases of shares from the pool.
use vstd::prelude::*;

use crate::events::{Effect, Event, EventBuyShares, EventInit};
use crate::market::{MarketView, RwaMarketplace, FN_BUY_SHARES};
use crate::table::KeyedTable;
use crate::types::{AccountId, ContractMetadata, MarketError};

verus! {

impl MarketView {
    /// Why `init` is refused, if it is.
    pub open spec fn init_refusal(self, price: i128, total_shares: u32) -> Option<MarketError> {
        if self.admin is Some {
            Some(MarketError::AlreadyInitialized)
        } else if price <= 0 {
            Some(MarketError::InitPriceNotPositive)
        } else if total_shares == 0 {
            Some(MarketError::InitTotalSharesZero)
        } else {
            None
        }
    }

    /// Why `buy_shares` is refused, if it is, in the order the checks are made.
    pub open spec fn buy_refusal(
        self,
        buyer: AccountId,
        shares: u32,
        payment_token: AccountId,
        now: u64,
        oracle_reply: Option<i128>,
    ) -> Option<MarketError> {
        if self.reentrancy_guard {
            Some(MarketError::Reentrancy)
        } else if self.paused == Some(true) {
            Some(MarketError::MarketplacePaused)
        } else if self.fn_paused(FN_BUY_SHARES) {
            Some(MarketError::PurchasesPaused)
        } else if self.circuit_breaker_triggered {
            Some(MarketError::CircuitBreakerActive)
        } else if !self.whitelist_flag(buyer) {
            Some(MarketError::BuyerNotWhitelisted)
        } else if self.expired_at(buyer, now) {
            Some(MarketError::WhitelistExpired)
        } else if self.available_shares is None {
            Some(MarketError::NotInitialized)
        } else if shares > self.available_shares.unwrap() {
            Some(MarketError::NotEnoughSharesAvailable)
        } else if shares == 0 {
            Some(MarketError::ZeroSharePurchase)
        } else if self.balance(buyer) + shares > u32::MAX {
            Some(MarketError::ArithmeticOverflow)
        } else if self.max_shares_per_user > 0 && self.balance(buyer) + shares
            > self.max_shares_per_user {
            Some(MarketError::MaxSharesPerUserExceeded)
        } else if !self.accepts(payment_token) {
            Some(MarketError::PaymentTokenNotAccepted)
        } else if self.price_per_share is None {
            Some(MarketError::NotInitialized)
        } else if !(i128::MIN <= self.price_from(oracle_reply).0 * shares <= i128::MAX) {
            Some(MarketError::ArithmeticOverflow)
        } else if self.admin is None {
            Some(MarketError::NotInitialized)
        } else {
            None
        }
    }

    /// The certificate mints for a purchase of `shares` by `buyer`.
    pub open spec fn mint_effects(self, buyer: AccountId, shares: u32) -> Seq<Effect> {
        match self.nft_contract {
            Some(nft) => seq![Effect::MintCertificates { nft, to: buyer, count: shares }],
            None => seq![],
        }
    }
}

impl RwaMarketplace {
    /// Initializes the marketplace: `admin` sells `total_shares` shares at
    /// `price` each, paid in `payment_token`.
    pub fn init(&mut self, admin: AccountId, payment_token: AccountId, price: i128, total_shares: u32) -> (r: Result<Vec<Effect>, MarketError>)
        ensures
            match r {
                Err(e) => {
                    &&& old(self)@.init_refusal(price, total_shares) == Some(e)
                    &&& final(self)@ == old(self)@
                },
                Ok(effects) => {
                    &&& old(self)@.init_refusal(price, total_shares) is None
                    &&& final(self)@ == (MarketView {
                        admin: Some(admin),
                        payment_token: Some(payment_token),
                        price_per_share: Some(price),
                        total_shares: Some(total_shares),
                        available_shares: Some(total_shares),
                        paused: Some(false),
                        implementation_version: 1,
                        holders: Seq::empty(),
                        accepted_tokens: seq![payment_token],
                        contract_metadata: final(self)@.contract_metadata,
                        ..old(self)@
                    })
                    &&& final(self)@.contract_metadata matches Some(md) && md.name@
                        == "RWA Marketplace"@ && md.version@ == "0.4.0"@ && md.description@
                        == "Tokenized Fractional RWA Marketplace"@
                    &&& effects@ == seq![
                        Effect::RequireAuth(admin),
                        Effect::Emit(
                            Event::Init(EventInit { admin, payment_token, price, total_shares }),
                        ),
                    ]
                },
            },
            old(self).holds_no_shares() && r is Ok ==> final(self).shares_conserved(),
    {
        if self.admin.is_some() {
            return Err(MarketError::AlreadyInitialized);
        }
        if price <= 0 {
            return Err(MarketError::InitPriceNotPositive);
        }
        if total_shares == 0 {
            return Err(MarketError::InitTotalSharesZero);
        }
        self.admin = Some(admin);
        self.payment_token = Some(payment_token);
        self.price_per_share = Some(price);
        self.total_shares = Some(total_shares);
        self.available_shares = Some(total_shares);
        self.paused = Some(false);
        self.implementation_version = 1;
        self.holders = Vec::new();
        let mut accepted: Vec<AccountId> = Vec::new();
        accepted.push(payment_token);
        self.accepted_tokens = accepted;
        self.contract_metadata = Some(
            ContractMetadata {
                name: "RWA Marketplace".to_owned(),
                version: "0.4.0".to_owned(),
                description: "Tokenized Fractional RWA Marketplace".to_owned(),
            },
        );
        let mut effects: Vec<Effect> = Vec::new();
        effects.push(Effect::RequireAuth(admin));
        effects.push(Effect::Emit(Event::Init(EventInit { admin, payment_token, price, total_shares })));
        proof {
            assert(self.accepted_tokens@ =~= seq![payment_token]);
        }
        Ok(effects)
    }

    /// Buys `shares` shares from the pool for `buyer`, paid in
    /// `payment_token` at the current price. `oracle_reply` is what the
    /// configured price oracle answered (`None` when the call failed); it is
    /// not read when no oracle is configured. The reentrancy guard stays held
    /// until the host has performed the effects and calls
    /// `release_reentrancy_guard`.
    pub fn buy_shares(
        &mut self,
        buyer: AccountId,
        shares: u32,
        payment_token: AccountId,
        now: u64,
        oracle_reply: Option<i128>,
    ) -> (r: Result<Vec<Effect>, MarketError>)
        ensures
            match r {
                Err(e) => {
                    &&& old(self)@.buy_refusal(buyer, shares, payment_token, now, oracle_reply)
                        == Some(e)
                    &&& final(self)@ == old(self)@
                },
                Ok(effects) => {
                    let pre = old(self)@;
                    let price = pre.price_from(oracle_reply).0;
                    let cost = (price * shares) as i128;
                    &&& pre.buy_refusal(buyer, shares, payment_token, now, oracle_reply) is None
                    &&& final(self)@ == (MarketView {
                        available_shares: Some((pre.available_shares.unwrap() - shares) as u32),
                        balances: pre.balances.insert(buyer, (pre.balance(buyer) + shares) as u32),
                        holders: pre.holders_with(buyer),
                        reentrancy_guard: true,
                        ..pre
                    })
                    &&& effects@ == seq![Effect::RequireAuth(buyer)] + pre.price_effects(oracle_reply)
                        + seq![
                        Effect::Transfer {
                            token: payment_token,
                            from: buyer,
                            to: pre.admin.unwrap(),
                            amount: cost,
                        },
                    ] + pre.mint_effects(buyer, shares) + seq![
                        Effect::Emit(Event::BuyShares(EventBuyShares { buyer, shares, total_cost: cost })),
                    ]
                },
            },
            old(self).shares_conserved() ==> final(self).shares_conserved(),
            old(self).supply_balanced() ==> final(self).supply_balanced(),
    {
        if self.reentrancy_guard {
            return Err(MarketError::Reentrancy);
        }
        if self.paused == Some(true) {
            return Err(MarketError::MarketplacePaused);
        }
        if self.fn_paused(FN_BUY_SHARES) {
            return Err(MarketError::PurchasesPaused);
        }
        if self.circuit_breaker_triggered {
            return Err(MarketError::CircuitBreakerActive);
        }
        if !self.whitelist_flag(buyer) {
            return Err(MarketError::BuyerNotWhitelisted);
        }
        let expiry = self.expiry_of(buyer);
        if expiry > 0 && (now >= expiry || expiry == 1) {
            return Err(MarketError::WhitelistExpired);
        }
        let available = match self.available_shares {
            Some(a) => a,
            None => {
                return Err(MarketError::NotInitialized);
            },
        };
        if shares > available {
            return Err(MarketError::NotEnoughSharesAvailable);
        }
        if shares == 0 {
            return Err(MarketError::ZeroSharePurchase);
        }
        let prev_balance = self.balance_of(buyer);
        let prospective = match prev_balance.checked_add(shares) {
            Some(p) => p,
            None => {
                return Err(MarketError::ArithmeticOverflow);
            },
        };
        if self.max_shares_per_user > 0 && prospective > self.max_shares_per_user {
            return Err(MarketError::MaxSharesPerUserExceeded);
        }
        if !self.accepts(payment_token) {
            return Err(MarketError::PaymentTokenNotAccepted);
        }
        if self.price_per_share.is_none() {
            return Err(MarketError::NotInitialized);
        }
        let (price, price_event) = self.price_for_purchase(oracle_reply);
        let total_cost = match price.checked_mul(shares as i128) {
            Some(c) => c,
            None => {
                return Err(MarketError::ArithmeticOverflow);
            },
        };
        let admin = match self.admin {
            Some(a) => a,
            None => {
                return Err(MarketError::NotInitialized);
            },
        };
        let ghost pre = *self;
        let mut effects: Vec<Effect> = Vec::new();
        effects.push(Effect::RequireAuth(buyer));
        match price_event {
            Some(e) => effects.push(Effect::Emit(e)),
            None => {},
        }
        effects.push(Effect::Transfer { token: payment_token, from: buyer, to: admin, amount: total_cost });
        match self.nft_contract {
            Some(nft) => effects.push(Effect::MintCertificates { nft, to: buyer, count: shares }),
            None => {},
        }
        effects.push(Effect::Emit(Event::BuyShares(EventBuyShares { buyer, shares, total_cost })));

        self.reentrancy_guard = true;
        self.available_shares = Some(available - shares);
        self.balances.insert(buyer, prospective);
        self.register_holder(buyer);
        proof {
            KeyedTable::<AccountId, u32>::lemma_insert_weight(pre.balances, self.balances, buyer, prospective);
            assert(effects@ =~= seq![Effect::RequireAuth(buyer)] + pre@.price_effects(oracle_reply)
                + seq![Effect::Transfer { token: payment_token, from: buyer, to: admin, amount: total_cost }]
                + pre@.mint_effects(buyer, shares)
                + seq![Effect::Emit(Event::BuyShares(EventBuyShares { buyer, shares, total_cost }))]);
        }
        Ok(effects)
    }

    /// Releases the reentrancy guard once the host has performed the effects
    /// of a guarded request.
    pub fn release_reentrancy_guard(&mut self)
        ensures
            final(self)@ == (MarketView { reentrancy_guard: false, ..old(self)@ }),
            old(self).shares_conserved() ==> final(self).shares_conserved(),
    {
        self.reentrancy_guard = false;
    }
}

} // verus!
