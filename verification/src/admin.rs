//! Administration: the whitelist, accepted payment tokens, prices and
//! supply, caps and fees, the certificate contract and oracle, metadata, the
//! marketplace-wide pause, withdrawals and code upgrades; and the queries.
use vstd::prelude::*;

use crate::events::{
    Effect, Event, EventAddPaymentToken, EventContractUpgraded, EventEmergencyWithdraw,
    EventMetadataUriSet, EventNftContractSet, EventPause, EventRemovePaymentToken, EventSetMaxSharesPerUser,
    EventSetOracle, EventSetPrice, EventSetTotalShares, EventTransferFeeConfig, EventUnpause,
    EventWhitelistBatch, EventWhitelistExpirySet, EventWhitelistRemoved, EventWhitelistTierSet,
    EventWhitelisted,
};
use crate::market::{MarketView, RwaMarketplace};
use crate::types::{AccountId, ContractMetadata, MarketError, WhitelistInfo};

verus! {

/// Highest transfer fee, in basis points (10%).
pub const MAX_TRANSFER_FEE_BPS: u32 = 1000;

/// Highest whitelist tier: 0 = standard, 1 = premium, 2 = institutional.
pub const MAX_WHITELIST_TIER: u32 = 2;

/// A map with every key of `keys` set to `true`.
pub open spec fn whitelist_all(m: Map<AccountId, bool>, keys: Seq<AccountId>) -> Map<AccountId, bool> {
    Map::new(
        |k: AccountId| m.contains_key(k) || keys.contains(k),
        |k: AccountId|
            if keys.contains(k) {
                true
            } else {
                m[k]
            },
    )
}

/// Keeps every account but `token`.
pub open spec fn other_than(token: AccountId) -> spec_fn(AccountId) -> bool {
    |t: AccountId| t != token
}

pub proof fn lemma_contains_push(s: Seq<AccountId>, a: AccountId, x: AccountId)
    ensures
        s.push(a).contains(x) <==> (s.contains(x) || x == a),
{
    let t = s.push(a);
    if s.contains(x) {
        let j = choose|j: int| 0 <= j < s.len() && #[trigger] s[j] == x;
        assert(t[j] == x);
    }
    if x == a {
        assert(t[s.len() as int] == a);
    }
    if t.contains(x) && x != a {
        let j = choose|j: int| 0 <= j < t.len() && #[trigger] t[j] == x;
        assert(s[j] == x);
    }
}

/// Copies a byte string.
fn copy_bytes(v: &Vec<u8>) -> (r: Vec<u8>)
    ensures
        r@ == v@,
{
    let mut out: Vec<u8> = Vec::new();
    let mut i: usize = 0;
    while i < v.len()
        invariant
            i <= v@.len(),
            out@ == v@.take(i as int),
        decreases v@.len() - i,
    {
        out.push(v[i]);
        proof {
            assert(v@.take(i + 1) =~= v@.take(i as int).push(v@[i as int]));
        }
        i = i + 1;
    }
    proof {
        assert(v@.take(v@.len() as int) =~= v@);
    }
    out
}

/// Copies a list of accounts.
fn copy_accounts(v: &Vec<AccountId>) -> (r: Vec<AccountId>)
    ensures
        r@ == v@,
{
    let mut out: Vec<AccountId> = Vec::new();
    let mut i: usize = 0;
    while i < v.len()
        invariant
            i <= v@.len(),
            out@ == v@.take(i as int),
        decreases v@.len() - i,
    {
        out.push(v[i]);
        proof {
            assert(v@.take(i + 1) =~= v@.take(i as int).push(v@[i as int]));
        }
        i = i + 1;
    }
    proof {
        assert(v@.take(v@.len() as int) =~= v@);
    }
    out
}

impl MarketView {
    /// The state and effects of an admin-only change `post` that emits `event`.
    pub open spec fn admin_change(self, post: MarketView, event: Event, r: Result<Vec<Effect>, MarketError>, final_view: MarketView) -> bool {
        match r {
            Err(e) => self.admin is None && e == MarketError::NotInitialized && final_view =~= self,
            Ok(effects) => {
                &&& self.admin is Some
                &&& final_view =~= post
                &&& effects@ =~= seq![Effect::RequireAuth(self.admin.unwrap()), Effect::Emit(event)]
            },
        }
    }

    /// Why `remove_payment_token` is refused, if it is.
    pub open spec fn remove_token_refusal(self, token: AccountId) -> Option<MarketError> {
        if self.admin is None || self.payment_token is None {
            Some(MarketError::NotInitialized)
        } else if token == self.payment_token.unwrap() {
            Some(MarketError::CannotRemoveDefaultToken)
        } else if !self.accepted_tokens.contains(token) {
            Some(MarketError::TokenNotAccepted)
        } else {
            None
        }
    }

    /// Why `set_total_shares` is refused, if it is.
    pub open spec fn total_shares_refusal(self, new_total: u32) -> Option<MarketError> {
        let total = self.total_shares.unwrap();
        let available = self.available_shares.unwrap();
        if self.admin is None || self.total_shares is None || self.available_shares is None {
            Some(MarketError::NotInitialized)
        } else if available > total {
            Some(MarketError::ArithmeticUnderflow)
        } else if new_total < available {
            Some(MarketError::TotalBelowAvailable)
        } else if new_total < total - available {
            Some(MarketError::TotalBelowIssued)
        } else {
            None
        }
    }
}

impl RwaMarketplace {
    /// Whitelists `addr`. Admin only.
    pub fn add_to_whitelist(&mut self, addr: AccountId) -> (r: Result<Vec<Effect>, MarketError>)
        ensures
            old(self)@.admin_change(
                MarketView { whitelisted: old(self)@.whitelisted.insert(addr, true), ..old(self)@ },
                Event::Whitelisted(EventWhitelisted { addr }),
                r,
                final(self)@,
            ),
            old(self).shares_conserved() ==> final(self).shares_conserved(),
    {
        let admin = match self.admin {
            Some(a) => a,
            None => {
                return Err(MarketError::NotInitialized);
            },
        };
        self.whitelisted.insert(addr, true);
        let mut effects: Vec<Effect> = Vec::new();
        effects.push(Effect::RequireAuth(admin));
        effects.push(Effect::Emit(Event::Whitelisted(EventWhitelisted { addr })));
        Ok(effects)
    }

    /// Removes `addr` from the whitelist (its expiry and tier stay). Admin only.
    pub fn remove_from_whitelist(&mut self, addr: AccountId) -> (r: Result<Vec<Effect>, MarketError>)
        ensures
            old(self)@.admin_change(
                MarketView { whitelisted: old(self)@.whitelisted.remove(addr), ..old(self)@ },
                Event::WhitelistRemoved(EventWhitelistRemoved { addr }),
                r,
                final(self)@,
            ),
            old(self).shares_conserved() ==> final(self).shares_conserved(),
    {
        let admin = match self.admin {
            Some(a) => a,
            None => {
                return Err(MarketError::NotInitialized);
            },
        };
        self.whitelisted.remove(&addr);
        let mut effects: Vec<Effect> = Vec::new();
        effects.push(Effect::RequireAuth(admin));
        effects.push(Effect::Emit(Event::WhitelistRemoved(EventWhitelistRemoved { addr })));
        Ok(effects)
    }

    /// Whether `addr` is whitelisted and its entry has not expired at `now`.
    pub fn is_whitelisted(&self, addr: AccountId, now: u64) -> (r: bool)
        ensures
            r == self@.whitelisted_at(addr, now),
    {
        self.whitelisted_now(addr, now)
    }

    /// Whitelists every address of `addrs`. Admin only.
    pub fn add_to_whitelist_batch(&mut self, addrs: &Vec<AccountId>) -> (r: Result<Vec<Effect>, MarketError>)
        ensures
            old(self)@.admin_change(
                MarketView {
                    whitelisted: whitelist_all(old(self)@.whitelisted, addrs@),
                    ..old(self)@
                },
                Event::WhitelistBatch(EventWhitelistBatch { count: addrs@.len() as u32, action: 0 }),
                r,
                final(self)@,
            ),
            old(self).shares_conserved() ==> final(self).shares_conserved(),
    {
        let admin = match self.admin {
            Some(a) => a,
            None => {
                return Err(MarketError::NotInitialized);
            },
        };
        let ghost w0 = self@.whitelisted;
        let ghost pre = *self;
        let count = addrs.len() as u32;
        let mut i: usize = 0;
        while i < addrs.len()
            invariant
                i <= addrs@.len(),
                self@ == (MarketView { whitelisted: whitelist_all(w0, addrs@.take(i as int)), ..pre@ }),
                self.balances == pre.balances,
                self.bridge_locked == pre.bridge_locked,
                self.sell_orders == pre.sell_orders,
                self.vesting == pre.vesting,
                self.total_shares == pre.total_shares,
                self.available_shares == pre.available_shares,
                self.next_order_id == pre.next_order_id,
            decreases addrs@.len() - i,
        {
            let a = addrs[i];
            self.whitelisted.insert(a, true);
            proof {
                assert(addrs@.take(i + 1) =~= addrs@.take(i as int).push(a));
                assert forall|k: AccountId| #![auto] addrs@.take(i + 1).contains(k) == (addrs@.take(i as int).contains(k) || k == a) by {
                    lemma_contains_push(addrs@.take(i as int), a, k);
                }
                let before = whitelist_all(w0, addrs@.take(i as int));
                let after = whitelist_all(w0, addrs@.take(i + 1));
                assert forall|k: AccountId| #![auto] after.contains_key(k) == before.insert(a, true).contains_key(k) by {
                    lemma_contains_push(addrs@.take(i as int), a, k);
                }
                assert forall|k: AccountId| #![auto] after.contains_key(k) implies after[k] == before.insert(a, true)[k] by {
                    lemma_contains_push(addrs@.take(i as int), a, k);
                }
                assert(after =~= before.insert(a, true));
            }
            i = i + 1;
        }
        proof {
            assert(addrs@.take(addrs@.len() as int) =~= addrs@);
        }
        let mut effects: Vec<Effect> = Vec::new();
        effects.push(Effect::RequireAuth(admin));
        effects.push(Effect::Emit(Event::WhitelistBatch(EventWhitelistBatch { count, action: 0 })));
        Ok(effects)
    }

    /// Removes every address of `addrs` from the whitelist, with its expiry
    /// and tier. Admin only.
    pub fn remove_from_whitelist_batch(&mut self, addrs: &Vec<AccountId>) -> (r: Result<Vec<Effect>, MarketError>)
        ensures
            old(self)@.admin_change(
                MarketView {
                    whitelisted: old(self)@.whitelisted.remove_keys(addrs@.to_set()),
                    whitelist_expiry: old(self)@.whitelist_expiry.remove_keys(addrs@.to_set()),
                    whitelist_tier: old(self)@.whitelist_tier.remove_keys(addrs@.to_set()),
                    ..old(self)@
                },
                Event::WhitelistBatch(EventWhitelistBatch { count: addrs@.len() as u32, action: 1 }),
                r,
                final(self)@,
            ),
            old(self).shares_conserved() ==> final(self).shares_conserved(),
    {
        let admin = match self.admin {
            Some(a) => a,
            None => {
                return Err(MarketError::NotInitialized);
            },
        };
        let ghost pre = *self;
        let count = addrs.len() as u32;
        let mut i: usize = 0;
        while i < addrs.len()
            invariant
                i <= addrs@.len(),
                self@ == (MarketView {
                    whitelisted: pre@.whitelisted.remove_keys(addrs@.take(i as int).to_set()),
                    whitelist_expiry: pre@.whitelist_expiry.remove_keys(addrs@.take(i as int).to_set()),
                    whitelist_tier: pre@.whitelist_tier.remove_keys(addrs@.take(i as int).to_set()),
                    ..pre@
                }),
                self.balances == pre.balances,
                self.bridge_locked == pre.bridge_locked,
                self.sell_orders == pre.sell_orders,
                self.vesting == pre.vesting,
                self.total_shares == pre.total_shares,
                self.available_shares == pre.available_shares,
                self.next_order_id == pre.next_order_id,
            decreases addrs@.len() - i,
        {
            let a = addrs[i];
            self.whitelisted.remove(&a);
            self.whitelist_expiry.remove(&a);
            self.whitelist_tier.remove(&a);
            proof {
                let t0 = addrs@.take(i as int);
                let t1 = addrs@.take(i + 1);
                let s0 = t0.to_set();
                let s1 = t1.to_set();
                assert(t1 =~= t0.push(a));
                assert(s1 =~= s0.insert(a)) by {
                    assert forall|x: AccountId| s1.contains(x) == s0.insert(a).contains(x) by {
                        if t1.contains(x) {
                            let j = choose|j: int| 0 <= j < t1.len() && #[trigger] t1[j] == x;
                            if j < i {
                                assert(t0[j] == x);
                            }
                        }
                        if t0.contains(x) {
                            let j = choose|j: int| 0 <= j < t0.len() && #[trigger] t0[j] == x;
                            assert(t1[j] == x);
                        }
                        if x == a {
                            assert(t1[i as int] == a);
                        }
                    }
                }
                assert(pre@.whitelisted.remove_keys(s1) =~= pre@.whitelisted.remove_keys(s0).remove(a));
                assert(pre@.whitelist_expiry.remove_keys(s1) =~= pre@.whitelist_expiry.remove_keys(s0).remove(a));
                assert(pre@.whitelist_tier.remove_keys(s1) =~= pre@.whitelist_tier.remove_keys(s0).remove(a));
            }
            i = i + 1;
        }
        proof {
            assert(addrs@.take(addrs@.len() as int) =~= addrs@);
        }
        let mut effects: Vec<Effect> = Vec::new();
        effects.push(Effect::RequireAuth(admin));
        effects.push(Effect::Emit(Event::WhitelistBatch(EventWhitelistBatch { count, action: 1 })));
        Ok(effects)
    }

    /// Sets when the whitelist entry of `addr` expires (0 = never). Admin only.
    pub fn set_whitelist_expiry(&mut self, addr: AccountId, expiry: u64) -> (r: Result<Vec<Effect>, MarketError>)
        ensures
            old(self)@.admin_change(
                MarketView { whitelist_expiry: old(self)@.whitelist_expiry.insert(addr, expiry), ..old(self)@ },
                Event::WhitelistExpirySet(EventWhitelistExpirySet { addr, expiry }),
                r,
                final(self)@,
            ),
            old(self).shares_conserved() ==> final(self).shares_conserved(),
    {
        let admin = match self.admin {
            Some(a) => a,
            None => {
                return Err(MarketError::NotInitialized);
            },
        };
        self.whitelist_expiry.insert(addr, expiry);
        let mut effects: Vec<Effect> = Vec::new();
        effects.push(Effect::RequireAuth(admin));
        effects.push(Effect::Emit(Event::WhitelistExpirySet(EventWhitelistExpirySet { addr, expiry })));
        Ok(effects)
    }

    /// Sets the whitelist tier of `addr` (at most 2). Admin only.
    pub fn set_whitelist_tier(&mut self, addr: AccountId, tier: u32) -> (r: Result<Vec<Effect>, MarketError>)
        ensures
            match r {
                Err(e) => {
                    &&& final(self)@ == old(self)@
                    &&& e == if old(self)@.admin is None {
                        MarketError::NotInitialized
                    } else {
                        MarketError::InvalidTier
                    }
                    &&& (old(self)@.admin is None || tier > MAX_WHITELIST_TIER)
                },
                Ok(effects) => {
                    &&& old(self)@.admin is Some
                    &&& tier <= MAX_WHITELIST_TIER
                    &&& final(self)@ == (MarketView {
                        whitelist_tier: old(self)@.whitelist_tier.insert(addr, tier),
                        ..old(self)@
                    })
                    &&& effects@ == seq![
                        Effect::RequireAuth(old(self)@.admin.unwrap()),
                        Effect::Emit(Event::WhitelistTierSet(EventWhitelistTierSet { addr, tier })),
                    ]
                },
            },
            old(self).shares_conserved() ==> final(self).shares_conserved(),
    {
        let admin = match self.admin {
            Some(a) => a,
            None => {
                return Err(MarketError::NotInitialized);
            },
        };
        if tier > MAX_WHITELIST_TIER {
            return Err(MarketError::InvalidTier);
        }
        self.whitelist_tier.insert(addr, tier);
        let mut effects: Vec<Effect> = Vec::new();
        effects.push(Effect::RequireAuth(admin));
        effects.push(Effect::Emit(Event::WhitelistTierSet(EventWhitelistTierSet { addr, tier })));
        Ok(effects)
    }

    /// The whitelist flag, tier and expiry of `addr`.
    pub fn get_whitelist_info(&self, addr: AccountId) -> (r: WhitelistInfo)
        ensures
            r == (WhitelistInfo {
                whitelisted: self@.whitelist_flag(addr),
                tier: self@.tier(addr),
                expiry: self@.expiry(addr),
            }),
    {
        WhitelistInfo {
            whitelisted: self.whitelist_flag(addr),
            tier: self.tier_of(addr),
            expiry: self.expiry_of(addr),
        }
    }

    /// Adds `token` to the accepted payment tokens. Admin only.
    pub fn add_payment_token(&mut self, token: AccountId) -> (r: Result<Vec<Effect>, MarketError>)
        ensures
            match r {
                Err(e) => {
                    &&& final(self)@ == old(self)@
                    &&& e == if old(self)@.admin is None {
                        MarketError::NotInitialized
                    } else {
                        MarketError::TokenAlreadyAccepted
                    }
                    &&& (old(self)@.admin is None || old(self)@.accepts(token))
                },
                Ok(effects) => {
                    &&& old(self)@.admin is Some
                    &&& !old(self)@.accepts(token)
                    &&& final(self)@ == (MarketView {
                        accepted_tokens: old(self)@.accepted_tokens.push(token),
                        ..old(self)@
                    })
                    &&& effects@ == seq![
                        Effect::RequireAuth(old(self)@.admin.unwrap()),
                        Effect::Emit(Event::AddPaymentToken(EventAddPaymentToken { token })),
                    ]
                },
            },
            old(self).shares_conserved() ==> final(self).shares_conserved(),
    {
        let admin = match self.admin {
            Some(a) => a,
            None => {
                return Err(MarketError::NotInitialized);
            },
        };
        if self.accepts(token) {
            return Err(MarketError::TokenAlreadyAccepted);
        }
        self.accepted_tokens.push(token);
        let mut effects: Vec<Effect> = Vec::new();
        effects.push(Effect::RequireAuth(admin));
        effects.push(Effect::Emit(Event::AddPaymentToken(EventAddPaymentToken { token })));
        Ok(effects)
    }

    /// Removes `token` from the accepted payment tokens; the default payment
    /// token cannot be removed. Admin only.
    pub fn remove_payment_token(&mut self, token: AccountId) -> (r: Result<Vec<Effect>, MarketError>)
        ensures
            match r {
                Err(e) => {
                    &&& old(self)@.remove_token_refusal(token) == Some(e)
                    &&& final(self)@ == old(self)@
                },
                Ok(effects) => {
                    &&& old(self)@.remove_token_refusal(token) is None
                    &&& final(self)@ == (MarketView {
                        accepted_tokens: old(self)@.accepted_tokens.filter(other_than(token)),
                        ..old(self)@
                    })
                    &&& effects@ == seq![
                        Effect::RequireAuth(old(self)@.admin.unwrap()),
                        Effect::Emit(Event::RemovePaymentToken(EventRemovePaymentToken { token })),
                    ]
                },
            },
            old(self).shares_conserved() ==> final(self).shares_conserved(),
    {
        let admin = match self.admin {
            Some(a) => a,
            None => {
                return Err(MarketError::NotInitialized);
            },
        };
        let default_token = match self.payment_token {
            Some(t) => t,
            None => {
                return Err(MarketError::NotInitialized);
            },
        };
        if token == default_token {
            return Err(MarketError::CannotRemoveDefaultToken);
        }
        let ghost keep = other_than(token);
        let ghost accepted = self.accepted_tokens@;
        let mut updated: Vec<AccountId> = Vec::new();
        let mut found = false;
        let mut i: usize = 0;
        while i < self.accepted_tokens.len()
            invariant
                accepted == self.accepted_tokens@,
                keep == other_than(token),
                i <= accepted.len(),
                updated@ == accepted.take(i as int).filter(keep),
                found == accepted.take(i as int).contains(token),
            decreases accepted.len() - i,
        {
            let t = self.accepted_tokens[i];
            proof {
                reveal_with_fuel(Seq::<AccountId>::filter, 1);
                let t0 = accepted.take(i as int);
                let t1 = accepted.take(i + 1);
                assert(t1.drop_last() =~= t0);
                assert(t1.last() == t);
                assert(t1.filter(keep) == if keep(t) {
                    t0.filter(keep).push(t)
                } else {
                    t0.filter(keep)
                });
                if t0.contains(token) {
                    let j = choose|j: int| 0 <= j < t0.len() && #[trigger] t0[j] == token;
                    assert(t1[j] == token);
                }
                if t1.contains(token) && t != token {
                    let j = choose|j: int| 0 <= j < t1.len() && #[trigger] t1[j] == token;
                    assert(t0[j] == token);
                }
                if t == token {
                    assert(t1[i as int] == token);
                }
            }
            if t == token {
                found = true;
            } else {
                updated.push(t);
            }
            i = i + 1;
        }
        proof {
            assert(accepted.take(accepted.len() as int) =~= accepted);
        }
        if !found {
            return Err(MarketError::TokenNotAccepted);
        }
        self.accepted_tokens = updated;
        let mut effects: Vec<Effect> = Vec::new();
        effects.push(Effect::RequireAuth(admin));
        effects.push(Effect::Emit(Event::RemovePaymentToken(EventRemovePaymentToken { token })));
        Ok(effects)
    }

    /// The accepted payment tokens.
    pub fn get_accepted_tokens(&self) -> (r: Vec<AccountId>)
        ensures
            r@ == self@.accepted_tokens,
    {
        copy_accounts(&self.accepted_tokens)
    }

    /// The registered holders.
    pub fn get_holders(&self) -> (r: Vec<AccountId>)
        ensures
            r@ == self@.holders,
    {
        copy_accounts(&self.holders)
    }

    /// Stores the URI of the asset's off-chain metadata. Admin only.
    pub fn set_metadata_uri(&mut self, uri: Vec<u8>) -> (r: Result<Vec<Effect>, MarketError>)
        ensures
            match r {
                Err(e) => old(self)@.admin is None && e == MarketError::NotInitialized
                    && final(self)@ == old(self)@,
                Ok(effects) => {
                    &&& old(self)@.admin is Some
                    &&& final(self)@ == (MarketView { metadata_uri: uri@, ..old(self)@ })
                    &&& effects@.len() == 2
                    &&& effects@[0] == Effect::RequireAuth(old(self)@.admin.unwrap())
                    &&& effects@[1] matches Effect::Emit(Event::MetadataUriSet(ev)) && ev.uri@ == uri@
                },
            },
            old(self).shares_conserved() ==> final(self).shares_conserved(),
    {
        let admin = match self.admin {
            Some(a) => a,
            None => {
                return Err(MarketError::NotInitialized);
            },
        };
        let reported = copy_bytes(&uri);
        self.metadata_uri = uri;
        let mut effects: Vec<Effect> = Vec::new();
        effects.push(Effect::RequireAuth(admin));
        effects.push(Effect::Emit(Event::MetadataUriSet(EventMetadataUriSet { uri: reported })));
        Ok(effects)
    }

    /// The URI of the asset's off-chain metadata (empty when none is set).
    pub fn get_metadata_uri(&self) -> (r: Vec<u8>)
        ensures
            r@ == self@.metadata_uri,
    {
        copy_bytes(&self.metadata_uri)
    }

    /// Liquid shares of `owner`.
    pub fn get_shares(&self, owner: AccountId) -> (r: u32)
        ensures
            r == self@.balance(owner),
    {
        self.balance_of(owner)
    }

    /// Shares left in the pool (0 before initialization).
    pub fn get_available_shares(&self) -> (r: u32)
        ensures
            r == (match self@.available_shares {
                Some(a) => a,
                None => 0,
            }),
    {
        match self.available_shares {
            Some(a) => a,
            None => 0,
        }
    }

    /// The total share supply (0 before initialization).
    pub fn get_total_shares(&self) -> (r: u32)
        ensures
            r == (match self@.total_shares {
                Some(t) => t,
                None => 0,
            }),
    {
        match self.total_shares {
            Some(t) => t,
            None => 0,
        }
    }

    /// The admin price per share (0 before initialization).
    pub fn get_price(&self) -> (r: i128)
        ensures
            r == (match self@.price_per_share {
                Some(p) => p,
                None => 0,
            }),
    {
        match self.price_per_share {
            Some(p) => p,
            None => 0,
        }
    }

    /// Whether the marketplace is paused; it counts as paused before
    /// initialization.
    pub fn is_paused(&self) -> (r: bool)
        ensures
            r == self@.paused_now(),
    {
        match self.paused {
            Some(p) => p,
            None => true,
        }
    }

    /// Pauses the marketplace. Admin only.
    pub fn pause(&mut self) -> (r: Result<Vec<Effect>, MarketError>)
        ensures
            old(self)@.admin_change(
                MarketView { paused: Some(true), ..old(self)@ },
                Event::Pause(EventPause {  }),
                r,
                final(self)@,
            ),
            old(self).shares_conserved() ==> final(self).shares_conserved(),
            old(self).supply_balanced() ==> final(self).supply_balanced(),
    {
        let admin = match self.admin {
            Some(a) => a,
            None => {
                return Err(MarketError::NotInitialized);
            },
        };
        self.paused = Some(true);
        let mut effects: Vec<Effect> = Vec::new();
        effects.push(Effect::RequireAuth(admin));
        effects.push(Effect::Emit(Event::Pause(EventPause {  })));
        Ok(effects)
    }

    /// Unpauses the marketplace. Admin only.
    pub fn unpause(&mut self) -> (r: Result<Vec<Effect>, MarketError>)
        ensures
            old(self)@.admin_change(
                MarketView { paused: Some(false), ..old(self)@ },
                Event::Unpause(EventUnpause {  }),
                r,
                final(self)@,
            ),
            old(self).shares_conserved() ==> final(self).shares_conserved(),
            old(self).supply_balanced() ==> final(self).supply_balanced(),
    {
        let admin = match self.admin {
            Some(a) => a,
            None => {
                return Err(MarketError::NotInitialized);
            },
        };
        self.paused = Some(false);
        let mut effects: Vec<Effect> = Vec::new();
        effects.push(Effect::RequireAuth(admin));
        effects.push(Effect::Emit(Event::Unpause(EventUnpause {  })));
        Ok(effects)
    }

    /// Pays `amount` of the payment token from the contract to `to`. Admin
    /// only.
    pub fn emergency_withdraw(&mut self, to: AccountId, amount: i128) -> (r: Result<Vec<Effect>, MarketError>)
        ensures
            final(self)@ == old(self)@,
            match r {
                Err(e) => (old(self)@.admin is None || old(self)@.payment_token is None) && e
                    == MarketError::NotInitialized,
                Ok(effects) => {
                    &&& old(self)@.admin is Some
                    &&& old(self)@.payment_token is Some
                    &&& effects@ == seq![
                        Effect::RequireAuth(old(self)@.admin.unwrap()),
                        Effect::Payout { token: old(self)@.payment_token.unwrap(), to, amount },
                        Effect::Emit(Event::EmergencyWithdraw(EventEmergencyWithdraw { to, amount })),
                    ]
                },
            },
            old(self).shares_conserved() ==> final(self).shares_conserved(),
    {
        let admin = match self.admin {
            Some(a) => a,
            None => {
                return Err(MarketError::NotInitialized);
            },
        };
        let token = match self.payment_token {
            Some(t) => t,
            None => {
                return Err(MarketError::NotInitialized);
            },
        };
        let mut effects: Vec<Effect> = Vec::new();
        effects.push(Effect::RequireAuth(admin));
        effects.push(Effect::Payout { token, to, amount });
        effects.push(Effect::Emit(Event::EmergencyWithdraw(EventEmergencyWithdraw { to, amount })));
        Ok(effects)
    }

    /// Sets the admin price per share. Admin only.
    pub fn set_price(&mut self, new_price: i128) -> (r: Result<Vec<Effect>, MarketError>)
        ensures
            match r {
                Err(e) => {
                    &&& final(self)@ == old(self)@
                    &&& e == if old(self)@.admin is None {
                        MarketError::NotInitialized
                    } else if new_price <= 0 {
                        MarketError::PriceNotPositive
                    } else {
                        MarketError::NotInitialized
                    }
                    &&& (old(self)@.admin is None || new_price <= 0 || old(self)@.price_per_share
                        is None)
                },
                Ok(effects) => {
                    &&& old(self)@.admin is Some
                    &&& new_price > 0
                    &&& old(self)@.price_per_share is Some
                    &&& final(self)@ == (MarketView { price_per_share: Some(new_price), ..old(self)@ })
                    &&& effects@ == seq![
                        Effect::RequireAuth(old(self)@.admin.unwrap()),
                        Effect::Emit(
                            Event::SetPrice(
                                EventSetPrice {
                                    old_price: old(self)@.price_per_share.unwrap(),
                                    new_price,
                                },
                            ),
                        ),
                    ]
                },
            },
            old(self).shares_conserved() ==> final(self).shares_conserved(),
            old(self).supply_balanced() ==> final(self).supply_balanced(),
    {
        let admin = match self.admin {
            Some(a) => a,
            None => {
                return Err(MarketError::NotInitialized);
            },
        };
        if new_price <= 0 {
            return Err(MarketError::PriceNotPositive);
        }
        let old_price = match self.price_per_share {
            Some(p) => p,
            None => {
                return Err(MarketError::NotInitialized);
            },
        };
        self.price_per_share = Some(new_price);
        let mut effects: Vec<Effect> = Vec::new();
        effects.push(Effect::RequireAuth(admin));
        effects.push(Effect::Emit(Event::SetPrice(EventSetPrice { old_price, new_price })));
        Ok(effects)
    }

    /// Sets the total supply to `new_total`; the shares held outside the pool
    /// stay, and the pool becomes the rest. `new_total` must cover both the
    /// pool and the shares issued. Admin only.
    pub fn set_total_shares(&mut self, new_total: u32) -> (r: Result<Vec<Effect>, MarketError>)
        ensures
            match r {
                Err(e) => {
                    &&& old(self)@.total_shares_refusal(new_total) == Some(e)
                    &&& final(self)@ == old(self)@
                },
                Ok(effects) => {
                    let pre = old(self)@;
                    let issued = pre.total_shares.unwrap() - pre.available_shares.unwrap();
                    &&& pre.total_shares_refusal(new_total) is None
                    &&& final(self)@ == (MarketView {
                        total_shares: Some(new_total),
                        available_shares: Some((new_total - issued) as u32),
                        ..pre
                    })
                    &&& effects@ == seq![
                        Effect::RequireAuth(pre.admin.unwrap()),
                        Effect::Emit(
                            Event::SetTotalShares(
                                EventSetTotalShares { old_total: pre.total_shares.unwrap(), new_total },
                            ),
                        ),
                    ]
                },
            },
            old(self).shares_conserved() ==> final(self).shares_conserved(),
            old(self).supply_balanced() ==> final(self).supply_balanced(),
    {
        let admin = match self.admin {
            Some(a) => a,
            None => {
                return Err(MarketError::NotInitialized);
            },
        };
        let total_shares = match self.total_shares {
            Some(t) => t,
            None => {
                return Err(MarketError::NotInitialized);
            },
        };
        let available_shares = match self.available_shares {
            Some(a) => a,
            None => {
                return Err(MarketError::NotInitialized);
            },
        };
        if available_shares > total_shares {
            return Err(MarketError::ArithmeticUnderflow);
        }
        let issued_shares = total_shares - available_shares;
        if new_total < available_shares {
            return Err(MarketError::TotalBelowAvailable);
        }
        if new_total < issued_shares {
            return Err(MarketError::TotalBelowIssued);
        }
        let new_available = new_total - issued_shares;
        self.total_shares = Some(new_total);
        self.available_shares = Some(new_available);
        let mut effects: Vec<Effect> = Vec::new();
        effects.push(Effect::RequireAuth(admin));
        effects.push(Effect::Emit(Event::SetTotalShares(EventSetTotalShares { old_total: total_shares, new_total })));
        Ok(effects)
    }

    /// Sets the most shares one address may hold after a purchase from the
    /// pool (0 = no limit). Admin only.
    pub fn set_max_shares_per_user(&mut self, amount: u32) -> (r: Result<Vec<Effect>, MarketError>)
        ensures
            old(self)@.admin_change(
                MarketView { max_shares_per_user: amount, ..old(self)@ },
                Event::SetMaxSharesPerUser(
                    EventSetMaxSharesPerUser { old_max: old(self)@.max_shares_per_user, new_max: amount },
                ),
                r,
                final(self)@,
            ),
            old(self).shares_conserved() ==> final(self).shares_conserved(),
    {
        let admin = match self.admin {
            Some(a) => a,
            None => {
                return Err(MarketError::NotInitialized);
            },
        };
        let old_max = self.max_shares_per_user;
        self.max_shares_per_user = amount;
        let mut effects: Vec<Effect> = Vec::new();
        effects.push(Effect::RequireAuth(admin));
        effects.push(Effect::Emit(Event::SetMaxSharesPerUser(EventSetMaxSharesPerUser { old_max, new_max: amount })));
        Ok(effects)
    }

    /// The per-address cap (0 = no limit).
    pub fn get_max_shares_per_user(&self) -> (r: u32)
        ensures
            r == self@.max_shares_per_user,
    {
        self.max_shares_per_user
    }

    /// Sets the transfer fee (at most 1000 basis points) and its collector.
    /// Admin only.
    pub fn set_transfer_fee(&mut self, fee_bps: u32, collector: AccountId) -> (r: Result<Vec<Effect>, MarketError>)
        ensures
            match r {
                Err(e) => {
                    &&& final(self)@ == old(self)@
                    &&& e == if old(self)@.admin is None {
                        MarketError::NotInitialized
                    } else {
                        MarketError::TransferFeeTooHigh
                    }
                    &&& (old(self)@.admin is None || fee_bps > MAX_TRANSFER_FEE_BPS)
                },
                Ok(effects) => {
                    &&& old(self)@.admin is Some
                    &&& fee_bps <= MAX_TRANSFER_FEE_BPS
                    &&& final(self)@ == (MarketView {
                        transfer_fee_bps: fee_bps,
                        transfer_fee_collector: Some(collector),
                        ..old(self)@
                    })
                    &&& effects@ == seq![
                        Effect::RequireAuth(old(self)@.admin.unwrap()),
                        Effect::Emit(Event::TransferFeeConfig(EventTransferFeeConfig { fee_bps, collector })),
                    ]
                },
            },
            old(self).shares_conserved() ==> final(self).shares_conserved(),
    {
        let admin = match self.admin {
            Some(a) => a,
            None => {
                return Err(MarketError::NotInitialized);
            },
        };
        if fee_bps > MAX_TRANSFER_FEE_BPS {
            return Err(MarketError::TransferFeeTooHigh);
        }
        self.transfer_fee_bps = fee_bps;
        self.transfer_fee_collector = Some(collector);
        let mut effects: Vec<Effect> = Vec::new();
        effects.push(Effect::RequireAuth(admin));
        effects.push(Effect::Emit(Event::TransferFeeConfig(EventTransferFeeConfig { fee_bps, collector })));
        Ok(effects)
    }

    /// The transfer fee in basis points and its collector.
    pub fn get_transfer_fee(&self) -> (r: (u32, Option<AccountId>))
        ensures
            r == (self@.transfer_fee_bps, self@.transfer_fee_collector),
    {
        (self.transfer_fee_bps, self.transfer_fee_collector)
    }

    /// Sets the contract that mints share certificates on purchases. Admin
    /// only.
    pub fn set_nft_contract(&mut self, nft_contract: AccountId) -> (r: Result<Vec<Effect>, MarketError>)
        ensures
            old(self)@.admin_change(
                MarketView { nft_contract: Some(nft_contract), ..old(self)@ },
                Event::NftContractSet(EventNftContractSet { nft_contract }),
                r,
                final(self)@,
            ),
            old(self).shares_conserved() ==> final(self).shares_conserved(),
    {
        let admin = match self.admin {
            Some(a) => a,
            None => {
                return Err(MarketError::NotInitialized);
            },
        };
        self.nft_contract = Some(nft_contract);
        let mut effects: Vec<Effect> = Vec::new();
        effects.push(Effect::RequireAuth(admin));
        effects.push(Effect::Emit(Event::NftContractSet(EventNftContractSet { nft_contract })));
        Ok(effects)
    }

    /// The certificate contract, if one is set.
    pub fn get_nft_contract(&self) -> (r: Option<AccountId>)
        ensures
            r == self@.nft_contract,
    {
        self.nft_contract
    }

    /// Sets the price oracle. Admin only.
    pub fn set_oracle(&mut self, oracle: AccountId) -> (r: Result<Vec<Effect>, MarketError>)
        ensures
            old(self)@.admin_change(
                MarketView { oracle: Some(oracle), ..old(self)@ },
                Event::SetOracle(EventSetOracle { oracle }),
                r,
                final(self)@,
            ),
            old(self).shares_conserved() ==> final(self).shares_conserved(),
    {
        let admin = match self.admin {
            Some(a) => a,
            None => {
                return Err(MarketError::NotInitialized);
            },
        };
        self.oracle = Some(oracle);
        let mut effects: Vec<Effect> = Vec::new();
        effects.push(Effect::RequireAuth(admin));
        effects.push(Effect::Emit(Event::SetOracle(EventSetOracle { oracle })));
        Ok(effects)
    }

    /// Removes the price oracle; purchases use the admin price. Admin only.
    pub fn clear_oracle(&mut self) -> (r: Result<Vec<Effect>, MarketError>)
        ensures
            match r {
                Err(e) => old(self)@.admin is None && e == MarketError::NotInitialized
                    && final(self)@ == old(self)@,
                Ok(effects) => {
                    &&& old(self)@.admin is Some
                    &&& final(self)@ == (MarketView { oracle: None, ..old(self)@ })
                    &&& effects@ == seq![Effect::RequireAuth(old(self)@.admin.unwrap())]
                },
            },
            old(self).shares_conserved() ==> final(self).shares_conserved(),
    {
        let admin = match self.admin {
            Some(a) => a,
            None => {
                return Err(MarketError::NotInitialized);
            },
        };
        self.oracle = None;
        let mut effects: Vec<Effect> = Vec::new();
        effects.push(Effect::RequireAuth(admin));
        Ok(effects)
    }

    /// The price oracle, if one is set.
    pub fn get_oracle(&self) -> (r: Option<AccountId>)
        ensures
            r == self@.oracle,
    {
        self.oracle
    }

    /// The marketplace's name, version and description.
    pub fn get_contract_metadata(&self) -> (r: Result<ContractMetadata, MarketError>)
        ensures
            match r {
                Err(e) => self@.contract_metadata is None && e == MarketError::NotInitialized,
                Ok(md) => self@.contract_metadata matches Some(m) && md.name@ == m.name@
                    && md.version@ == m.version@ && md.description@ == m.description@,
            },
    {
        match &self.contract_metadata {
            Some(m) => Ok(
                ContractMetadata {
                    name: m.name.clone(),
                    version: m.version.clone(),
                    description: m.description.clone(),
                },
            ),
            None => Err(MarketError::NotInitialized),
        }
    }

    /// The admin.
    pub fn get_admin(&self) -> (r: Result<AccountId, MarketError>)
        ensures
            r == self@.admin_or_uninit(),
    {
        match self.admin {
            Some(a) => Ok(a),
            None => Err(MarketError::NotInitialized),
        }
    }

    /// Whether the marketplace has been initialized.
    pub fn is_initialized(&self) -> (r: bool)
        ensures
            r == self@.admin is Some,
    {
        self.admin.is_some()
    }

    /// Replaces the contract's code by the code with hash `new_wasm_hash`.
    /// Admin only.
    pub fn upgrade(&self, new_wasm_hash: [u8; 32]) -> (r: Result<Vec<Effect>, MarketError>)
        ensures
            match r {
                Err(e) => self@.admin is None && e == MarketError::NotInitialized,
                Ok(effects) => {
                    &&& self@.admin is Some
                    &&& effects@ == seq![
                        Effect::RequireAuth(self@.admin.unwrap()),
                        Effect::UpdateContractWasm(new_wasm_hash),
                        Effect::Emit(Event::ContractUpgraded(EventContractUpgraded { new_wasm_hash })),
                    ]
                },
            },
    {
        let admin = match self.admin {
            Some(a) => a,
            None => {
                return Err(MarketError::NotInitialized);
            },
        };
        let mut effects: Vec<Effect> = Vec::new();
        effects.push(Effect::RequireAuth(admin));
        effects.push(Effect::UpdateContractWasm(new_wasm_hash));
        effects.push(Effect::Emit(Event::ContractUpgraded(EventContractUpgraded { new_wasm_hash })));
        Ok(effects)
    }
}

} // verus!
