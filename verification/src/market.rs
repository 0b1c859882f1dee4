//! The marketplace's state, its mathematical view, and the checks and lookups
//! that the operations share.
use vstd::prelude::*;

use crate::events::{Effect, Event, EventOraclePriceFallback, EventOraclePriceFetched};
use crate::table::{KeyedTable, Weighted};
use crate::types::{
    AccountId, AdminAction, AllowanceKey, AutoBuybackConfig, BuybackRequest, CircuitBreakerConfig,
    ContractMetadata, DividendSchedule, MarketError, SellOrder, StateSnapshot, UpgradeConfig,
    VestingSchedule,
};

verus! {

/// Function categories that can be paused one by one (bit positions of the
/// pause flags).
pub const FN_BUY_SHARES: u32 = 0;

pub const FN_TRANSFER: u32 = 1;

pub const FN_DIVIDEND: u32 = 2;

pub const FN_SELL_ORDER: u32 = 3;

pub const FN_BUYBACK: u32 = 4;

pub const FN_TRANSFER_FROM: u32 = 5;

/// Maximum number of purchase requests allowed in a single batch.
pub const MAX_BATCH_SIZE: u32 = 10;

/// Ledgers that a scheduled upgrade waits when no timelock was set.
pub const DEFAULT_UPGRADE_TIMELOCK: u64 = 100;

/// Seconds that a timelocked operation waits after it is scheduled (48 hours).
pub const OPERATION_DELAY: u64 = 172800;

/// Shares of a vesting schedule that are not claimed yet.
pub open spec fn unclaimed(s: VestingSchedule) -> int {
    if s.claimed_amount <= s.total_amount {
        s.total_amount - s.claimed_amount
    } else {
        0
    }
}

/// Sum of the unclaimed shares of a list of vesting schedules.
pub open spec fn unclaimed_total(s: Seq<VestingSchedule>) -> int
    decreases s.len(),
{
    if s.len() == 0 {
        0
    } else {
        unclaimed_total(s.drop_last()) + unclaimed(s.last())
    }
}

pub proof fn lemma_unclaimed_total_nonneg(s: Seq<VestingSchedule>)
    ensures
        unclaimed_total(s) >= 0,
    decreases s.len(),
{
    if s.len() > 0 {
        lemma_unclaimed_total_nonneg(s.drop_last());
    }
}

impl Weighted for Vec<VestingSchedule> {
    open spec fn weight(&self) -> int {
        unclaimed_total(self@)
    }

    proof fn lemma_weight_nonneg(&self) {
        lemma_unclaimed_total_nonneg(self@);
    }
}

/// The state of the marketplace contract. Each field is one entry (or family
/// of entries) of the contract's storage.
pub struct RwaMarketplace {
    pub admin: Option<AccountId>,
    pub payment_token: Option<AccountId>,
    pub price_per_share: Option<i128>,
    pub total_shares: Option<u32>,
    pub available_shares: Option<u32>,
    pub paused: Option<bool>,
    pub balances: KeyedTable<AccountId, u32>,
    pub vesting: KeyedTable<AccountId, Vec<VestingSchedule>>,
    pub holders: Vec<AccountId>,
    pub metadata_uri: Vec<u8>,
    pub dividend_schedule: Option<DividendSchedule>,
    pub last_distribution: u64,
    pub whitelisted: KeyedTable<AccountId, bool>,
    pub sell_orders: KeyedTable<u64, SellOrder>,
    pub next_order_id: u64,
    pub max_shares_per_user: u32,
    pub allowances: KeyedTable<AllowanceKey, u32>,
    pub buyback_config: Option<AutoBuybackConfig>,
    pub buyback_budget: i128,
    pub last_buyback: u64,
    pub accepted_tokens: Vec<AccountId>,
    pub nft_contract: Option<AccountId>,
    pub reentrancy_guard: bool,
    pub oracle: Option<AccountId>,
    pub bridge_locked: KeyedTable<AccountId, u32>,
    pub contract_metadata: Option<ContractMetadata>,
    pub implementation_version: u32,
    pub pending_upgrade: Option<UpgradeConfig>,
    pub upgrade_timelock: u64,
    pub function_pause_flags: u32,
    pub circuit_breaker: Option<CircuitBreakerConfig>,
    pub circuit_breaker_triggered: bool,
    pub circuit_breaker_trigger_count: u32,
    pub recovery_enabled: bool,
    pub last_snapshot_ledger: u64,
    pub snapshot_count: u32,
    pub snapshots: KeyedTable<u32, StateSnapshot>,
    pub whitelist_expiry: KeyedTable<AccountId, u64>,
    pub whitelist_tier: KeyedTable<AccountId, u32>,
    pub transfer_fee_bps: u32,
    pub transfer_fee_collector: Option<AccountId>,
    pub buyback_requests: KeyedTable<u64, BuybackRequest>,
    pub buyback_request_counter: u64,
    pub scheduled_operations: KeyedTable<AdminAction, u64>,
}

/// The marketplace's state as mathematical values.
#[verifier::ext_equal]
pub struct MarketView {
    pub admin: Option<AccountId>,
    pub payment_token: Option<AccountId>,
    pub price_per_share: Option<i128>,
    pub total_shares: Option<u32>,
    pub available_shares: Option<u32>,
    pub paused: Option<bool>,
    pub balances: Map<AccountId, u32>,
    pub vesting: Map<AccountId, Seq<VestingSchedule>>,
    pub holders: Seq<AccountId>,
    pub metadata_uri: Seq<u8>,
    pub dividend_schedule: Option<DividendSchedule>,
    pub last_distribution: u64,
    pub whitelisted: Map<AccountId, bool>,
    pub sell_orders: Map<u64, SellOrder>,
    pub next_order_id: u64,
    pub max_shares_per_user: u32,
    pub allowances: Map<AllowanceKey, u32>,
    pub buyback_config: Option<AutoBuybackConfig>,
    pub buyback_budget: i128,
    pub last_buyback: u64,
    pub accepted_tokens: Seq<AccountId>,
    pub nft_contract: Option<AccountId>,
    pub reentrancy_guard: bool,
    pub oracle: Option<AccountId>,
    pub bridge_locked: Map<AccountId, u32>,
    pub contract_metadata: Option<ContractMetadata>,
    pub implementation_version: u32,
    pub pending_upgrade: Option<UpgradeConfig>,
    pub upgrade_timelock: u64,
    pub function_pause_flags: u32,
    pub circuit_breaker: Option<CircuitBreakerConfig>,
    pub circuit_breaker_triggered: bool,
    pub circuit_breaker_trigger_count: u32,
    pub recovery_enabled: bool,
    pub last_snapshot_ledger: u64,
    pub snapshot_count: u32,
    pub snapshots: Map<u32, StateSnapshot>,
    pub whitelist_expiry: Map<AccountId, u64>,
    pub whitelist_tier: Map<AccountId, u32>,
    pub transfer_fee_bps: u32,
    pub transfer_fee_collector: Option<AccountId>,
    pub buyback_requests: Map<u64, BuybackRequest>,
    pub buyback_request_counter: u64,
    pub scheduled_operations: Map<AdminAction, u64>,
}

impl View for RwaMarketplace {
    type V = MarketView;

    open spec fn view(&self) -> MarketView {
        MarketView {
            admin: self.admin,
            payment_token: self.payment_token,
            price_per_share: self.price_per_share,
            total_shares: self.total_shares,
            available_shares: self.available_shares,
            paused: self.paused,
            balances: self.balances@,
            vesting: self.vesting@.map_values(|v: Vec<VestingSchedule>| v@),
            holders: self.holders@,
            metadata_uri: self.metadata_uri@,
            dividend_schedule: self.dividend_schedule,
            last_distribution: self.last_distribution,
            whitelisted: self.whitelisted@,
            sell_orders: self.sell_orders@,
            next_order_id: self.next_order_id,
            max_shares_per_user: self.max_shares_per_user,
            allowances: self.allowances@,
            buyback_config: self.buyback_config,
            buyback_budget: self.buyback_budget,
            last_buyback: self.last_buyback,
            accepted_tokens: self.accepted_tokens@,
            nft_contract: self.nft_contract,
            reentrancy_guard: self.reentrancy_guard,
            oracle: self.oracle,
            bridge_locked: self.bridge_locked@,
            contract_metadata: self.contract_metadata,
            implementation_version: self.implementation_version,
            pending_upgrade: self.pending_upgrade,
            upgrade_timelock: self.upgrade_timelock,
            function_pause_flags: self.function_pause_flags,
            circuit_breaker: self.circuit_breaker,
            circuit_breaker_triggered: self.circuit_breaker_triggered,
            circuit_breaker_trigger_count: self.circuit_breaker_trigger_count,
            recovery_enabled: self.recovery_enabled,
            last_snapshot_ledger: self.last_snapshot_ledger,
            snapshot_count: self.snapshot_count,
            snapshots: self.snapshots@,
            whitelist_expiry: self.whitelist_expiry@,
            whitelist_tier: self.whitelist_tier@,
            transfer_fee_bps: self.transfer_fee_bps,
            transfer_fee_collector: self.transfer_fee_collector,
            buyback_requests: self.buyback_requests@,
            buyback_request_counter: self.buyback_request_counter,
            scheduled_operations: self.scheduled_operations@,
        }
    }
}

impl MarketView {
    /// Liquid shares of an account.
    pub open spec fn balance(self, a: AccountId) -> u32 {
        if self.balances.contains_key(a) {
            self.balances[a]
        } else {
            0
        }
    }

    pub open spec fn locked_for_bridge(self, a: AccountId) -> u32 {
        if self.bridge_locked.contains_key(a) {
            self.bridge_locked[a]
        } else {
            0
        }
    }

    pub open spec fn allowance(self, owner: AccountId, spender: AccountId) -> u32 {
        let k = AllowanceKey { owner, spender };
        if self.allowances.contains_key(k) {
            self.allowances[k]
        } else {
            0
        }
    }

    pub open spec fn schedules(self, a: AccountId) -> Seq<VestingSchedule> {
        if self.vesting.contains_key(a) {
            self.vesting[a]
        } else {
            Seq::empty()
        }
    }

    pub open spec fn whitelist_flag(self, a: AccountId) -> bool {
        self.whitelisted.contains_key(a) && self.whitelisted[a]
    }

    pub open spec fn expiry(self, a: AccountId) -> u64 {
        if self.whitelist_expiry.contains_key(a) {
            self.whitelist_expiry[a]
        } else {
            0
        }
    }

    pub open spec fn tier(self, a: AccountId) -> u32 {
        if self.whitelist_tier.contains_key(a) {
            self.whitelist_tier[a]
        } else {
            0
        }
    }

    /// Whether the whitelist entry of `a` has expired at time `now`: an
    /// expiry of 0 never expires, and any other expiry has passed once `now`
    /// reaches it. An expiry of 1, the earliest one can set, also counts as
    /// passed at time 0, so it revokes the entry at once.
    pub open spec fn expired_at(self, a: AccountId, now: u64) -> bool {
        self.expiry(a) > 0 && (now >= self.expiry(a) || self.expiry(a) == 1)
    }

    /// Whitelisted and not expired at time `now`.
    pub open spec fn whitelisted_at(self, a: AccountId, now: u64) -> bool {
        self.whitelist_flag(a) && !self.expired_at(a, now)
    }

    /// Whether the marketplace reads as paused (it does until initialized).
    pub open spec fn paused_now(self) -> bool {
        match self.paused {
            Some(p) => p,
            None => true,
        }
    }

    /// Whether function category `id` is paused.
    pub open spec fn fn_paused(self, id: u32) -> bool {
        self.function_pause_flags & (1u32 << id) != 0
    }

    pub open spec fn accepts(self, token: AccountId) -> bool {
        self.accepted_tokens.contains(token)
    }

    /// The share price used for a purchase, given the reply of the configured
    /// oracle (`None` when the call failed), and the event that reports which
    /// price was used. Requires the admin price to be set.
    pub open spec fn price_from(self, oracle_reply: Option<i128>) -> (i128, Option<Event>) {
        let admin_price = self.price_per_share.unwrap();
        match self.oracle {
            Some(o) => match oracle_reply {
                Some(p) if p > 0 => (
                    p,
                    Some(Event::OraclePriceFetched(EventOraclePriceFetched { oracle: o, price: p })),
                ),
                _ => (
                    admin_price,
                    Some(
                        Event::OraclePriceFallback(
                            EventOraclePriceFallback { admin_price: admin_price },
                        ),
                    ),
                ),
            },
            None => (admin_price, None),
        }
    }

    /// The effects that report the price that was used.
    pub open spec fn price_effects(self, oracle_reply: Option<i128>) -> Seq<Effect> {
        match self.price_from(oracle_reply).1 {
            Some(e) => seq![Effect::Emit(e)],
            None => seq![],
        }
    }

    /// The holder registry after `a` is registered.
    pub open spec fn holders_with(self, a: AccountId) -> Seq<AccountId> {
        if self.holders.contains(a) {
            self.holders
        } else {
            self.holders.push(a)
        }
    }

    /// The admin, or the refusal of a contract that was never initialized.
    pub open spec fn admin_or_uninit(self) -> Result<AccountId, MarketError> {
        match self.admin {
            Some(a) => Ok(a),
            None => Err(MarketError::NotInitialized),
        }
    }
}

impl RwaMarketplace {
    /// Shares held outside the pool: liquid balances, shares locked for the
    /// bridge, shares escrowed in sell orders and unclaimed vested shares.
    pub open spec fn circulating(&self) -> int {
        self.balances.total_weight() + self.bridge_locked.total_weight()
            + self.sell_orders.total_weight() + self.vesting.total_weight()
    }

    /// The supply balance: every share of the supply is either in the pool
    /// or held outside it.
    pub open spec fn supply_balanced(&self) -> bool {
        &&& self.total_shares is Some
        &&& self.available_shares is Some
        &&& self.circulating() + self.available_shares.unwrap() == self.total_shares.unwrap()
    }

    /// The conservation law: the supply is balanced, each vesting schedule
    /// has claimed no more than it holds, every open order has an id below
    /// the next one, and no holder is registered twice.
    pub open spec fn shares_conserved(&self) -> bool {
        &&& self.supply_balanced()
        &&& forall|a: AccountId, i: int|
            #![trigger self.vesting@[a]@[i]]
            self.vesting@.contains_key(a) && 0 <= i < self.vesting@[a]@.len()
                ==> self.vesting@[a]@[i].claimed_amount <= self.vesting@[a]@[i].total_amount
        &&& forall|id: u64| #[trigger] self.sell_orders@.contains_key(id) ==> id < self.next_order_id
        &&& self.holders@.no_duplicates()
    }

    /// No share is held outside the pool: no balance, lock, order or vesting
    /// schedule.
    pub open spec fn holds_no_shares(&self) -> bool {
        &&& self.circulating() == 0
        &&& self.sell_orders@ == Map::<u64, SellOrder>::empty()
        &&& self.vesting@ == Map::<AccountId, Vec<VestingSchedule>>::empty()
    }

    /// A marketplace that has not been initialized.
    pub fn new() -> (m: Self)
        ensures
            m@.admin is None,
            m@.payment_token is None,
            m@.price_per_share is None,
            m@.total_shares is None,
            m@.available_shares is None,
            m@.paused is None,
            m@.balances == Map::<AccountId, u32>::empty(),
            m@.vesting == Map::<AccountId, Seq<VestingSchedule>>::empty(),
            m@.holders == Seq::<AccountId>::empty(),
            m@.metadata_uri == Seq::<u8>::empty(),
            m@.dividend_schedule is None,
            m@.last_distribution == 0,
            m@.whitelisted == Map::<AccountId, bool>::empty(),
            m@.sell_orders == Map::<u64, SellOrder>::empty(),
            m@.next_order_id == 0,
            m@.max_shares_per_user == 0,
            m@.allowances == Map::<AllowanceKey, u32>::empty(),
            m@.buyback_config is None,
            m@.buyback_budget == 0,
            m@.last_buyback == 0,
            m@.accepted_tokens == Seq::<AccountId>::empty(),
            m@.nft_contract is None,
            m@.reentrancy_guard == false,
            m@.oracle is None,
            m@.bridge_locked == Map::<AccountId, u32>::empty(),
            m@.contract_metadata is None,
            m@.implementation_version == 1,
            m@.pending_upgrade is None,
            m@.upgrade_timelock == DEFAULT_UPGRADE_TIMELOCK,
            m@.function_pause_flags == 0,
            m@.circuit_breaker is None,
            m@.circuit_breaker_triggered == false,
            m@.circuit_breaker_trigger_count == 0,
            m@.recovery_enabled == false,
            m@.last_snapshot_ledger == 0,
            m@.snapshot_count == 0,
            m@.snapshots == Map::<u32, StateSnapshot>::empty(),
            m@.whitelist_expiry == Map::<AccountId, u64>::empty(),
            m@.whitelist_tier == Map::<AccountId, u32>::empty(),
            m@.transfer_fee_bps == 0,
            m@.transfer_fee_collector is None,
            m@.buyback_requests == Map::<u64, BuybackRequest>::empty(),
            m@.buyback_request_counter == 0,
            m@.scheduled_operations == Map::<AdminAction, u64>::empty(),
            m.holds_no_shares(),
    {
        let m = RwaMarketplace {
            admin: None,
            payment_token: None,
            price_per_share: None,
            total_shares: None,
            available_shares: None,
            paused: None,
            balances: KeyedTable::new(),
            vesting: KeyedTable::new(),
            holders: Vec::new(),
            metadata_uri: Vec::new(),
            dividend_schedule: None,
            last_distribution: 0,
            whitelisted: KeyedTable::new(),
            sell_orders: KeyedTable::new(),
            next_order_id: 0,
            max_shares_per_user: 0,
            allowances: KeyedTable::new(),
            buyback_config: None,
            buyback_budget: 0,
            last_buyback: 0,
            accepted_tokens: Vec::new(),
            nft_contract: None,
            reentrancy_guard: false,
            oracle: None,
            bridge_locked: KeyedTable::new(),
            contract_metadata: None,
            implementation_version: 1,
            pending_upgrade: None,
            upgrade_timelock: DEFAULT_UPGRADE_TIMELOCK,
            function_pause_flags: 0,
            circuit_breaker: None,
            circuit_breaker_triggered: false,
            circuit_breaker_trigger_count: 0,
            recovery_enabled: false,
            last_snapshot_ledger: 0,
            snapshot_count: 0,
            snapshots: KeyedTable::new(),
            whitelist_expiry: KeyedTable::new(),
            whitelist_tier: KeyedTable::new(),
            transfer_fee_bps: 0,
            transfer_fee_collector: None,
            buyback_requests: KeyedTable::new(),
            buyback_request_counter: 0,
            scheduled_operations: KeyedTable::new(),
        };
        proof {
            KeyedTable::<AccountId, u32>::lemma_empty_weight(m.balances);
            KeyedTable::<AccountId, u32>::lemma_empty_weight(m.bridge_locked);
            KeyedTable::<u64, SellOrder>::lemma_empty_weight(m.sell_orders);
            KeyedTable::<AccountId, Vec<VestingSchedule>>::lemma_empty_weight(m.vesting);
            assert(m@.vesting =~= Map::<AccountId, Seq<VestingSchedule>>::empty());
            assert(m.vesting@ =~= Map::<AccountId, Vec<VestingSchedule>>::empty());
        }
        m
    }

    // ── Shared lookups ────────────────────────────────────────────────────
    pub(crate) fn balance_of(&self, a: AccountId) -> (r: u32)
        ensures
            r == self@.balance(a),
    {
        match self.balances.get(&a) {
            Some(b) => *b,
            None => 0,
        }
    }

    pub(crate) fn locked_of(&self, a: AccountId) -> (r: u32)
        ensures
            r == self@.locked_for_bridge(a),
    {
        match self.bridge_locked.get(&a) {
            Some(b) => *b,
            None => 0,
        }
    }

    pub(crate) fn fn_paused(&self, id: u32) -> (r: bool)
        requires
            id < 32,
        ensures
            r == self@.fn_paused(id),
    {
        self.function_pause_flags & (1u32 << id) != 0
    }

    pub(crate) fn whitelist_flag(&self, a: AccountId) -> (r: bool)
        ensures
            r == self@.whitelist_flag(a),
    {
        match self.whitelisted.get(&a) {
            Some(w) => *w,
            None => false,
        }
    }

    pub(crate) fn expiry_of(&self, a: AccountId) -> (r: u64)
        ensures
            r == self@.expiry(a),
    {
        match self.whitelist_expiry.get(&a) {
            Some(e) => *e,
            None => 0,
        }
    }

    /// Whitelisted and not expired at time `now`.
    pub(crate) fn whitelisted_now(&self, a: AccountId, now: u64) -> (r: bool)
        ensures
            r == self@.whitelisted_at(a, now),
    {
        if !self.whitelist_flag(a) {
            return false;
        }
        let expiry = self.expiry_of(a);
        if expiry > 0 && (now >= expiry || expiry == 1) {
            return false;
        }
        true
    }

    pub(crate) fn tier_of(&self, a: AccountId) -> (r: u32)
        ensures
            r == self@.tier(a),
    {
        match self.whitelist_tier.get(&a) {
            Some(t) => *t,
            None => 0,
        }
    }

    /// Whether `token` is among the accepted payment tokens.
    pub(crate) fn accepts(&self, token: AccountId) -> (r: bool)
        ensures
            r == self@.accepts(token),
    {
        let mut i: usize = 0;
        while i < self.accepted_tokens.len()
            invariant
                i <= self.accepted_tokens@.len(),
                forall|j: int| 0 <= j < i ==> self.accepted_tokens@[j] != token,
            decreases self.accepted_tokens@.len() - i,
        {
            if self.accepted_tokens[i] == token {
                return true;
            }
            i = i + 1;
        }
        false
    }

    /// The price of a purchase and the event that reports it.
    pub(crate) fn price_for_purchase(&self, oracle_reply: Option<i128>) -> (r: (i128, Option<Event>))
        requires
            self.price_per_share is Some,
        ensures
            r == self@.price_from(oracle_reply),
    {
        let admin_price = self.price_per_share.unwrap();
        match self.oracle {
            Some(o) => match oracle_reply {
                Some(p) => {
                    if p > 0 {
                        (p, Some(Event::OraclePriceFetched(EventOraclePriceFetched { oracle: o, price: p })))
                    } else {
                        (admin_price, Some(Event::OraclePriceFallback(EventOraclePriceFallback { admin_price })))
                    }
                },
                None => (admin_price, Some(Event::OraclePriceFallback(EventOraclePriceFallback { admin_price }))),
            },
            None => (admin_price, None),
        }
    }

    /// Registers `a` as a holder unless it is registered already.
    pub(crate) fn register_holder(&mut self, a: AccountId)
        ensures
            final(self)@ == (MarketView { holders: old(self)@.holders_with(a), ..old(self)@ }),
            final(self).circulating() == old(self).circulating(),
            final(self).balances == old(self).balances,
            final(self).bridge_locked == old(self).bridge_locked,
            final(self).sell_orders == old(self).sell_orders,
            final(self).vesting == old(self).vesting,
            old(self)@.holders.no_duplicates() ==> final(self)@.holders.no_duplicates(),
    {
        let mut i: usize = 0;
        while i < self.holders.len()
            invariant
                i <= self.holders@.len(),
                forall|j: int| 0 <= j < i ==> self.holders@[j] != a,
            decreases self.holders@.len() - i,
        {
            if self.holders[i] == a {
                return;
            }
            i = i + 1;
        }
        let ghost before = self.holders@;
        self.holders.push(a);
        proof {
            assert(!before.contains(a));
            if before.no_duplicates() {
                assert forall|x: int, y: int| 0 <= x < y < self.holders@.len() implies self.holders@[x]
                    != self.holders@[y] by {
                    if y == before.len() {
                        assert(self.holders@[x] == before[x]);
                    }
                }
            }
        }
    }
}

} // verus!
