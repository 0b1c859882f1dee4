// Scenarios of the marketplace, run against a small host that performs the
// effects the marketplace asks for: token balances, certificate mints and
// published events.
use std::collections::HashMap;

use rwa_marketplace::events::{
    Effect, Event, EventApproval, EventBuyShares, EventBuybackShares, EventClaimVestedShares,
    EventEmergencyWithdraw, EventInit, EventOperationCancelled, EventOperationExecuted,
    EventOperationScheduled, EventOrderCancelled, EventOrderPlaced, EventPause, EventSetPrice,
    EventTransfer, EventUnpause, EventWhitelistRemoved, EventWhitelisted,
};
use rwa_marketplace::market::RwaMarketplace;
use rwa_marketplace::types::{AdminAction, BatchPurchaseRequest, BatchPurchaseResult, MarketError};

const ADMIN: u64 = 1;
const BUYER: u64 = 2;
const BUYER2: u64 = 3;
const RECIPIENT: u64 = 4;
const SPENDER: u64 = 5;
const ORACLE: u64 = 6;
const COLLECTOR: u64 = 7;
const TOKEN: u64 = 100;
const NFT: u64 = 200;
const CONTRACT: u64 = 500;

const INIT_PRICE: i128 = 100;
const INIT_TOTAL: u32 = 1000;

struct Host {
    m: RwaMarketplace,
    tokens: HashMap<(u64, u64), i128>,
    events: Vec<Event>,
    certificates: Vec<(u64, u64)>,
    now: u64,
    oracle_reply: Option<i128>,
}

impl Host {
    fn new() -> Host {
        Host {
            m: RwaMarketplace::new(),
            tokens: HashMap::new(),
            events: Vec::new(),
            certificates: Vec::new(),
            now: 0,
            oracle_reply: None,
        }
    }

    fn mint(&mut self, to: u64, amount: i128) {
        *self.tokens.entry((TOKEN, to)).or_insert(0) += amount;
    }

    fn balance(&self, who: u64) -> i128 {
        *self.tokens.get(&(TOKEN, who)).unwrap_or(&0)
    }

    fn move_tokens(&mut self, token: u64, from: u64, to: u64, amount: i128) {
        let from_balance = *self.tokens.get(&(token, from)).unwrap_or(&0);
        assert!(from_balance >= amount, "balance is not sufficient to spend");
        self.tokens.insert((token, from), from_balance - amount);
        *self.tokens.entry((token, to)).or_insert(0) += amount;
    }

    fn perform(&mut self, effects: Vec<Effect>) {
        for effect in effects {
            match effect {
                Effect::RequireAuth(_) => {}
                Effect::Transfer { token, from, to, amount } => self.move_tokens(token, from, to, amount),
                Effect::Payout { token, to, amount } => self.move_tokens(token, CONTRACT, to, amount),
                Effect::MintCertificates { nft, to, count } => {
                    for _ in 0..count {
                        self.certificates.push((nft, to));
                    }
                }
                Effect::UpdateContractWasm(_) => {}
                Effect::Emit(event) => self.events.push(event),
            }
        }
        if self.m.reentrancy_guard {
            self.m.release_reentrancy_guard();
        }
    }

    fn apply(&mut self, r: Result<Vec<Effect>, MarketError>) -> Result<(), MarketError> {
        match r {
            Ok(effects) => {
                self.perform(effects);
                Ok(())
            }
            Err(e) => Err(e),
        }
    }

    fn init(&mut self, price: i128, total: u32) -> Result<(), MarketError> {
        let r = self.m.init(ADMIN, TOKEN, price, total);
        self.apply(r)
    }

    fn whitelist(&mut self, addr: u64) -> Result<(), MarketError> {
        let r = self.m.add_to_whitelist(addr);
        self.apply(r)
    }

    fn buy(&mut self, buyer: u64, shares: u32) -> Result<(), MarketError> {
        let r = self.m.buy_shares(buyer, shares, TOKEN, self.now, self.oracle_reply);
        self.apply(r)
    }

    fn transfer(&mut self, from: u64, to: u64, amount: u32) -> Result<(), MarketError> {
        let r = self.m.transfer_shares(from, to, amount);
        self.apply(r)
    }

    fn batch(&mut self, buyer: u64, requests: &Vec<BatchPurchaseRequest>) -> Result<Vec<BatchPurchaseResult>, MarketError> {
        match self.m.batch_buy_shares(buyer, requests, self.now, self.oracle_reply) {
            Ok((results, effects)) => {
                self.perform(effects);
                Ok(results)
            }
            Err(e) => Err(e),
        }
    }

    fn certificates_of(&self, nft: u64, owner: u64) -> usize {
        self.certificates.iter().filter(|c| **c == (nft, owner)).count()
    }

    fn emitted(&self, event: &Event) -> bool {
        self.events.iter().any(|e| e == event)
    }
}

fn setup() -> Host {
    Host::new()
}

fn request(shares: u32) -> BatchPurchaseRequest {
    BatchPurchaseRequest { shares, payment_token: TOKEN }
}

// ── Initialization, purchases and the whitelist ─────────────────────────

#[test]
fn test_init_and_query() {
    let mut h = setup();
    h.init(100, 1000).unwrap();

    assert_eq!(h.m.get_total_shares(), 1000);
    assert_eq!(h.m.get_available_shares(), 1000);
    assert_eq!(h.m.get_price(), 100);
    assert!(!h.m.is_paused());
    assert_eq!(h.m.get_shares(ADMIN), 0);
}

#[test]
fn test_buy_shares_requires_whitelist() {
    let mut h = setup();
    h.init(100, 1000).unwrap();
    h.mint(BUYER, 100000);
    assert_eq!(h.buy(BUYER, 25), Err(MarketError::BuyerNotWhitelisted));
}

#[test]
fn test_whitelist_admin_can_add_and_buy() {
    let mut h = setup();
    h.init(100, 1000).unwrap();
    h.mint(BUYER, 100000);

    assert!(!h.m.is_whitelisted(BUYER, h.now));
    h.whitelist(BUYER).unwrap();
    assert!(h.m.is_whitelisted(BUYER, h.now));

    h.buy(BUYER, 25).unwrap();
    assert_eq!(h.m.get_shares(BUYER), 25);
    assert_eq!(h.m.get_available_shares(), 975);
}

#[test]
fn test_remove_from_whitelist_blocks_buy() {
    let mut h = setup();
    h.init(100, 1000).unwrap();
    h.mint(BUYER, 100000);

    h.whitelist(BUYER).unwrap();
    assert!(h.m.is_whitelisted(BUYER, h.now));
    let r = h.m.remove_from_whitelist(BUYER);
    h.apply(r).unwrap();
    assert!(!h.m.is_whitelisted(BUYER, h.now));

    assert_eq!(h.buy(BUYER, 25), Err(MarketError::BuyerNotWhitelisted));
}

#[test]
fn test_multiple_buys() {
    let mut h = setup();
    h.init(100, 1000).unwrap();
    h.mint(BUYER, 100000);
    h.whitelist(BUYER).unwrap();

    h.buy(BUYER, 10).unwrap();
    h.buy(BUYER, 20).unwrap();
    assert_eq!(h.m.get_shares(BUYER), 30);
    assert_eq!(h.m.get_available_shares(), 970);
}

#[test]
fn test_pause_unpause() {
    let mut h = setup();
    h.init(100, 1000).unwrap();

    assert!(!h.m.is_paused());
    let r = h.m.pause();
    h.apply(r).unwrap();
    assert!(h.m.is_paused());
    let r = h.m.unpause();
    h.apply(r).unwrap();
    assert!(!h.m.is_paused());
}

#[test]
fn test_buy_when_paused() {
    let mut h = setup();
    h.init(100, 1000).unwrap();
    let r = h.m.pause();
    h.apply(r).unwrap();
    assert_eq!(h.buy(BUYER, 1), Err(MarketError::MarketplacePaused));
}

#[test]
fn test_double_init() {
    let mut h = setup();
    h.init(100, 1000).unwrap();
    assert_eq!(h.init(100, 1000), Err(MarketError::AlreadyInitialized));
}

#[test]
fn test_init_zero_price() {
    let mut h = setup();
    assert_eq!(h.init(0, 1000), Err(MarketError::InitPriceNotPositive));
}

#[test]
fn test_init_negative_price() {
    let mut h = setup();
    assert_eq!(h.init(-50, 1000), Err(MarketError::InitPriceNotPositive));
}

#[test]
fn test_init_zero_total_shares() {
    let mut h = setup();
    assert_eq!(h.init(100, 0), Err(MarketError::InitTotalSharesZero));
}

#[test]
fn test_overbuy() {
    let mut h = setup();
    h.init(100, 10).unwrap();
    h.whitelist(BUYER).unwrap();
    h.mint(BUYER, 100000);
    h.whitelist(BUYER).unwrap();
    assert_eq!(h.buy(BUYER, 20), Err(MarketError::NotEnoughSharesAvailable));
}

#[test]
fn test_zero_shares() {
    let mut h = setup();
    h.init(100, 1000).unwrap();
    h.whitelist(BUYER).unwrap();
    assert_eq!(h.buy(BUYER, 0), Err(MarketError::ZeroSharePurchase));
}

#[test]
fn test_emergency_withdraw() {
    let mut h = setup();
    h.init(100, 1000).unwrap();
    let r = h.m.emergency_withdraw(ADMIN, 0);
    h.apply(r).unwrap();
}

// ── Holder registry and dividends ───────────────────────────────────────

#[test]
fn test_holders_registered_on_buy() {
    let mut h = setup();
    h.init(100, 1000).unwrap();
    h.mint(BUYER, 100_000);
    h.whitelist(BUYER).unwrap();

    assert_eq!(h.m.get_holders().len(), 0);

    h.buy(BUYER, 10).unwrap();
    assert_eq!(h.m.get_holders().len(), 1);

    h.buy(BUYER, 5).unwrap();
    assert_eq!(h.m.get_holders().len(), 1);
}

#[test]
fn test_multiple_holders_registered() {
    let mut h = setup();
    h.init(100, 1000).unwrap();
    h.mint(BUYER, 100_000);
    h.mint(BUYER2, 100_000);
    h.whitelist(BUYER).unwrap();
    h.whitelist(BUYER2).unwrap();

    h.buy(BUYER, 10).unwrap();
    h.buy(BUYER2, 20).unwrap();

    assert_eq!(h.m.get_holders().len(), 2);
}

#[test]
fn test_distribute_dividends_single_holder() {
    let mut h = setup();
    h.init(100, 1000).unwrap();
    h.mint(BUYER, 100_000);
    h.whitelist(BUYER).unwrap();

    h.buy(BUYER, 500).unwrap();

    let dividend_amount: i128 = 10_000;
    h.mint(CONTRACT, dividend_amount);

    let r = h.m.distribute_dividends(TOKEN, dividend_amount);
    h.apply(r).unwrap();

    assert_eq!(h.balance(BUYER), 100_000 - 50_000 + 5_000);
}

#[test]
fn test_distribute_dividends_multiple_holders() {
    let mut h = setup();
    h.init(100, 1000).unwrap();
    h.mint(BUYER, 100_000);
    h.mint(BUYER2, 100_000);
    h.whitelist(BUYER).unwrap();
    h.whitelist(BUYER2).unwrap();

    h.buy(BUYER, 250).unwrap();
    h.buy(BUYER2, 750).unwrap();

    let dividend_amount: i128 = 10_000;
    h.mint(CONTRACT, dividend_amount);

    let r = h.m.distribute_dividends(TOKEN, dividend_amount);
    h.apply(r).unwrap();

    assert_eq!(h.balance(BUYER), 100_000 - 250 * 100 + 2_500);
    assert_eq!(h.balance(BUYER2), 100_000 - 750 * 100 + 7_500);
}

#[test]
fn test_distribute_cleans_up_zero_balance_holders() {
    let mut h = setup();
    h.init(100, 1000).unwrap();
    h.mint(BUYER, 100_000);
    h.mint(BUYER2, 100_000);
    h.whitelist(BUYER).unwrap();
    h.whitelist(BUYER2).unwrap();

    h.buy(BUYER, 10).unwrap();
    h.buy(BUYER2, 20).unwrap();
    assert_eq!(h.m.get_holders().len(), 2);

    // Zero out the buyer's balance directly, as a later sale would.
    h.m.balances.insert(BUYER, 0);

    let dividend_amount: i128 = 1_000;
    h.mint(CONTRACT, dividend_amount);
    let r = h.m.distribute_dividends(TOKEN, dividend_amount);
    h.apply(r).unwrap();

    assert_eq!(h.m.get_holders().len(), 1);
}

#[test]
fn test_distribute_zero_amount() {
    let mut h = setup();
    h.init(100, 1000).unwrap();
    assert_eq!(h.m.distribute_dividends(TOKEN, 0), Err(MarketError::DividendAmountNotPositive));
}

#[test]
fn test_distribute_no_holders() {
    let mut h = setup();
    h.init(100, 1000).unwrap();
    assert_eq!(h.m.distribute_dividends(TOKEN, 1000), Err(MarketError::NoHoldersRegistered));
}

// ── Price and supply ────────────────────────────────────────────────────

#[test]
fn test_set_price() {
    let mut h = setup();
    h.init(100, 1000).unwrap();

    let r = h.m.set_price(200);
    h.apply(r).unwrap();
    assert_eq!(h.m.get_price(), 200);
}

#[test]
fn test_set_price_affects_future_buys() {
    let mut h = setup();
    h.init(100, 1000).unwrap();
    h.mint(BUYER, 100_000);
    h.whitelist(BUYER).unwrap();

    let r = h.m.set_price(200);
    h.apply(r).unwrap();
    h.buy(BUYER, 10).unwrap();

    assert_eq!(h.balance(BUYER), 100_000 - 10 * 200);
}

#[test]
fn test_set_price_zero() {
    let mut h = setup();
    h.init(100, 1000).unwrap();
    assert_eq!(h.m.set_price(0), Err(MarketError::PriceNotPositive));
}

#[test]
fn test_set_price_negative() {
    let mut h = setup();
    h.init(100, 1000).unwrap();
    assert_eq!(h.m.set_price(-50), Err(MarketError::PriceNotPositive));
}

#[test]
fn test_set_total_shares_increase() {
    let mut h = setup();
    h.init(100, 1000).unwrap();

    let r = h.m.set_total_shares(1500);
    h.apply(r).unwrap();
    assert_eq!(h.m.get_total_shares(), 1500);
    assert_eq!(h.m.get_available_shares(), 1500);
}

#[test]
fn test_set_total_shares_after_partial_sale() {
    let mut h = setup();
    h.init(100, 1000).unwrap();
    h.mint(BUYER, 100_000);
    h.whitelist(BUYER).unwrap();

    h.buy(BUYER, 100).unwrap();
    assert_eq!(h.m.get_available_shares(), 900);

    let r = h.m.set_total_shares(1200);
    h.apply(r).unwrap();
    assert_eq!(h.m.get_total_shares(), 1200);
    assert_eq!(h.m.get_available_shares(), 1100);
    assert_eq!(h.m.get_shares(BUYER), 100);
}

#[test]
fn test_set_total_shares_same_as_current() {
    let mut h = setup();
    h.init(100, 1000).unwrap();

    let r = h.m.set_total_shares(1000);
    h.apply(r).unwrap();
    assert_eq!(h.m.get_total_shares(), 1000);
    assert_eq!(h.m.get_available_shares(), 1000);
}

#[test]
fn test_set_total_shares_below_available() {
    let mut h = setup();
    h.init(100, 1000).unwrap();
    assert_eq!(h.m.set_total_shares(500), Err(MarketError::TotalBelowAvailable));
}

#[test]
fn test_buy_shares_price_overflow() {
    let mut h = setup();
    h.init(i128::MAX, 1000).unwrap();
    h.whitelist(BUYER).unwrap();
    h.mint(BUYER, i128::MAX);
    h.whitelist(BUYER).unwrap();
    assert_eq!(h.buy(BUYER, 2), Err(MarketError::ArithmeticOverflow));
}

#[test]
fn test_buy_shares_overbuy() {
    let mut h = setup();
    h.init(100, 1000).unwrap();
    h.whitelist(BUYER).unwrap();
    h.mint(BUYER, 100_000);
    h.whitelist(BUYER).unwrap();
    assert_eq!(h.buy(BUYER, 2000), Err(MarketError::NotEnoughSharesAvailable));
}

#[test]
fn test_buy_shares_balance_overflow() {
    let mut h = setup();
    h.init(1, u32::MAX).unwrap();
    h.whitelist(BUYER).unwrap();
    h.mint(BUYER, i128::MAX);
    h.whitelist(BUYER).unwrap();
    h.m.balances.insert(BUYER, u32::MAX - 10);
    h.m.available_shares = Some(1000);
    assert_eq!(h.buy(BUYER, 20), Err(MarketError::ArithmeticOverflow));
}

#[test]
fn test_distribute_dividends_multiply_overflow() {
    let mut h = setup();
    h.init(100, 1000).unwrap();
    h.whitelist(BUYER).unwrap();
    h.mint(BUYER, 100_000);
    h.whitelist(BUYER).unwrap();

    h.buy(BUYER, 500).unwrap();

    let huge_dividend: i128 = i128::MAX / 2;
    h.mint(CONTRACT, huge_dividend);
    assert_eq!(h.m.distribute_dividends(TOKEN, huge_dividend), Err(MarketError::ArithmeticOverflow));
}

#[test]
fn test_set_total_shares_below_issued_logic_check() {
    let mut h = setup();
    h.init(100, 1000).unwrap();
    h.whitelist(BUYER).unwrap();
    h.mint(BUYER, 100_000);
    h.whitelist(BUYER).unwrap();

    h.buy(BUYER, 600).unwrap();
    assert_eq!(h.m.set_total_shares(500), Err(MarketError::TotalBelowIssued));
}

// ── Requests before initialization ──────────────────────────────────────

#[test]
fn test_pre_init_buy_shares() {
    let mut h = setup();
    assert_eq!(h.buy(BUYER, 1), Err(MarketError::BuyerNotWhitelisted));
}

#[test]
fn test_pre_init_pause() {
    let mut h = setup();
    assert_eq!(h.m.pause(), Err(MarketError::NotInitialized));
}

#[test]
fn test_pre_init_unpause() {
    let mut h = setup();
    assert_eq!(h.m.unpause(), Err(MarketError::NotInitialized));
}

#[test]
fn test_pre_init_set_price() {
    let mut h = setup();
    assert_eq!(h.m.set_price(100), Err(MarketError::NotInitialized));
}

#[test]
fn test_pre_init_set_total_shares() {
    let mut h = setup();
    assert_eq!(h.m.set_total_shares(1000), Err(MarketError::NotInitialized));
}

#[test]
fn test_pre_init_distribute_dividends() {
    let mut h = setup();
    assert_eq!(h.m.distribute_dividends(TOKEN, 1000), Err(MarketError::NotInitialized));
}

#[test]
fn test_pre_init_emergency_withdraw() {
    let mut h = setup();
    assert_eq!(h.m.emergency_withdraw(ADMIN, 0), Err(MarketError::NotInitialized));
}

#[test]
fn test_pre_init_add_to_whitelist() {
    let mut h = setup();
    assert_eq!(h.m.add_to_whitelist(RECIPIENT), Err(MarketError::NotInitialized));
}

#[test]
fn test_pre_init_remove_from_whitelist() {
    let mut h = setup();
    assert_eq!(h.m.remove_from_whitelist(RECIPIENT), Err(MarketError::NotInitialized));
}

#[test]
fn test_pre_init_buy_vested_shares() {
    let mut h = setup();
    assert_eq!(h.m.buy_vested_shares(BUYER, 1, 3600, TOKEN, 0, None), Err(MarketError::NotInitialized));
}

// ── Metadata URI ────────────────────────────────────────────────────────

#[test]
fn test_set_and_get_metadata_uri() {
    let mut h = setup();
    h.init(100, 1000).unwrap();

    let uri = b"ipfs://QmTest".to_vec();
    let r = h.m.set_metadata_uri(uri.clone());
    h.apply(r).unwrap();
    assert_eq!(h.m.get_metadata_uri(), uri);
}

#[test]
fn test_get_metadata_uri_default_empty() {
    let mut h = setup();
    h.init(100, 1000).unwrap();

    assert_eq!(h.m.get_metadata_uri(), Vec::<u8>::new());
}

#[test]
fn test_set_metadata_uri_overwrites() {
    let mut h = setup();
    h.init(100, 1000).unwrap();

    let r = h.m.set_metadata_uri(b"ipfs://old".to_vec());
    h.apply(r).unwrap();
    let new_uri = b"ipfs://new".to_vec();
    let r = h.m.set_metadata_uri(new_uri.clone());
    h.apply(r).unwrap();
    assert_eq!(h.m.get_metadata_uri(), new_uri);
}

// ── Dividend schedule ───────────────────────────────────────────────────

#[test]
fn test_set_dividend_schedule() {
    let mut h = setup();
    h.init(100, 1000).unwrap();

    let r = h.m.set_dividend_schedule(10_i128, 86400_u64);
    h.apply(r).unwrap();
    let schedule = h.m.get_dividend_schedule().unwrap();
    assert_eq!(schedule.amount_per_share, 10);
    assert_eq!(schedule.interval, 86400);
}

#[test]
fn test_get_dividend_schedule_default_none() {
    let mut h = setup();
    h.init(100, 1000).unwrap();

    assert!(h.m.get_dividend_schedule().is_none());
}

#[test]
fn test_set_dividend_schedule_zero_amount() {
    let mut h = setup();
    h.init(100, 1000).unwrap();
    assert_eq!(h.m.set_dividend_schedule(0, 86400), Err(MarketError::AmountPerShareNotPositive));
}

#[test]
fn test_set_dividend_schedule_negative_amount() {
    let mut h = setup();
    h.init(100, 1000).unwrap();
    assert_eq!(h.m.set_dividend_schedule(-1, 86400), Err(MarketError::AmountPerShareNotPositive));
}

#[test]
fn test_set_dividend_schedule_zero_interval() {
    let mut h = setup();
    h.init(100, 1000).unwrap();
    assert_eq!(h.m.set_dividend_schedule(10, 0), Err(MarketError::IntervalNotPositive));
}

#[test]
fn test_process_scheduled_dividend_no_schedule() {
    let mut h = setup();
    h.init(100, 1000).unwrap();
    assert_eq!(h.m.process_scheduled_dividend(h.now), Err(MarketError::DividendScheduleNotConfigured));
}

#[test]
fn test_process_scheduled_dividend_interval_not_elapsed() {
    let mut h = setup();
    h.init(100, 1000).unwrap();

    let r = h.m.set_dividend_schedule(10, 86400);
    h.apply(r).unwrap();
    assert_eq!(h.m.process_scheduled_dividend(h.now), Err(MarketError::DividendIntervalNotElapsed));
}

#[test]
fn test_process_scheduled_dividend_distributes() {
    let mut h = setup();
    h.init(100, 1000).unwrap();
    h.mint(BUYER, 100_000);
    h.mint(BUYER2, 100_000);
    h.whitelist(BUYER).unwrap();
    h.whitelist(BUYER2).unwrap();

    h.buy(BUYER, 300).unwrap();
    h.buy(BUYER2, 700).unwrap();
    assert_eq!(h.m.get_available_shares(), 0);

    let r = h.m.set_dividend_schedule(10, 86400);
    h.apply(r).unwrap();

    let total_amount: i128 = 10 * 1000;
    h.mint(CONTRACT, total_amount);

    h.now += 86401;
    let r = h.m.process_scheduled_dividend(h.now);
    h.apply(r).unwrap();

    assert_eq!(h.balance(BUYER), 100_000 - 30_000 + 3_000);
    assert_eq!(h.balance(BUYER2), 100_000 - 70_000 + 7_000);
}

#[test]
fn test_process_scheduled_dividend_updates_last_distribution() {
    let mut h = setup();
    h.init(100, 1000).unwrap();

    h.mint(BUYER, 100_000);
    h.whitelist(BUYER).unwrap();
    h.buy(BUYER, 500).unwrap();

    let r = h.m.set_dividend_schedule(1, 100);
    h.apply(r).unwrap();
    h.mint(CONTRACT, 500);

    h.now += 101;
    let r = h.m.process_scheduled_dividend(h.now);
    h.apply(r).unwrap();
    assert_eq!(h.m.last_distribution, h.now);
}

#[test]
fn test_process_scheduled_dividend_second_call_too_soon() {
    let mut h = setup();
    h.init(100, 1000).unwrap();

    h.mint(BUYER, 100_000);
    h.whitelist(BUYER).unwrap();
    h.buy(BUYER, 500).unwrap();

    let r = h.m.set_dividend_schedule(1, 100);
    h.apply(r).unwrap();
    h.mint(CONTRACT, 1000);

    h.now += 101;
    let r = h.m.process_scheduled_dividend(h.now);
    h.apply(r).unwrap();

    assert_eq!(h.m.process_scheduled_dividend(h.now), Err(MarketError::DividendIntervalNotElapsed));
}

#[test]
fn test_process_scheduled_dividend_after_multiple_intervals() {
    let mut h = setup();
    h.init(100, 1000).unwrap();

    h.mint(BUYER, 100_000);
    h.whitelist(BUYER).unwrap();
    h.buy(BUYER, 500).unwrap();

    let r = h.m.set_dividend_schedule(5, 3600);
    h.apply(r).unwrap();
    h.mint(CONTRACT, 2500);

    let start = h.now;

    h.now = start + 3601;
    let r = h.m.process_scheduled_dividend(h.now);
    h.apply(r).unwrap();

    h.mint(CONTRACT, 2500);
    h.now = start + 7201;
    let r = h.m.process_scheduled_dividend(h.now);
    h.apply(r).unwrap();

    assert_eq!(h.balance(BUYER), 100_000 - 50_000 + 5_000);
}

#[test]
fn test_process_scheduled_dividend_no_holders() {
    let mut h = setup();
    h.init(100, 1000).unwrap();

    let r = h.m.set_dividend_schedule(10, 1);
    h.apply(r).unwrap();
    h.now += 2;
    assert_eq!(h.m.process_scheduled_dividend(h.now), Err(MarketError::NoHoldersRegistered));
}

// ── Per-address cap ─────────────────────────────────────────────────────

#[test]
fn test_max_shares_per_user_default_unlimited() {
    let mut h = setup();
    h.init(100, 1000).unwrap();

    assert_eq!(h.m.get_max_shares_per_user(), 0);
}

#[test]
fn test_set_and_get_max_shares_per_user() {
    let mut h = setup();
    h.init(100, 1000).unwrap();

    let r = h.m.set_max_shares_per_user(50);
    h.apply(r).unwrap();
    assert_eq!(h.m.get_max_shares_per_user(), 50);
}

#[test]
fn test_buy_within_cap_succeeds() {
    let mut h = setup();
    h.init(100, 1000).unwrap();
    h.mint(BUYER, 100_000);
    h.whitelist(BUYER).unwrap();

    let r = h.m.set_max_shares_per_user(50);
    h.apply(r).unwrap();
    h.buy(BUYER, 50).unwrap();
    assert_eq!(h.m.get_shares(BUYER), 50);
}

#[test]
fn test_buy_exceeding_cap_single_purchase() {
    let mut h = setup();
    h.init(100, 1000).unwrap();
    h.mint(BUYER, 100_000);
    h.whitelist(BUYER).unwrap();

    let r = h.m.set_max_shares_per_user(50);
    h.apply(r).unwrap();
    assert_eq!(h.buy(BUYER, 51), Err(MarketError::MaxSharesPerUserExceeded));
}

#[test]
fn test_cap_checks_current_holdings_plus_purchase() {
    let mut h = setup();
    h.init(100, 1000).unwrap();
    h.mint(BUYER, 100_000);
    h.whitelist(BUYER).unwrap();

    let r = h.m.set_max_shares_per_user(50);
    h.apply(r).unwrap();
    h.buy(BUYER, 40).unwrap();
    assert_eq!(h.m.get_shares(BUYER), 40);
    assert_eq!(h.buy(BUYER, 20), Err(MarketError::MaxSharesPerUserExceeded));
}

#[test]
fn test_buy_up_to_cap_across_multiple_purchases() {
    let mut h = setup();
    h.init(100, 1000).unwrap();
    h.mint(BUYER, 100_000);
    h.whitelist(BUYER).unwrap();

    let r = h.m.set_max_shares_per_user(50);
    h.apply(r).unwrap();
    h.buy(BUYER, 30).unwrap();
    h.buy(BUYER, 20).unwrap();
    assert_eq!(h.m.get_shares(BUYER), 50);
}

#[test]
fn test_cap_does_not_block_transfer_when_rejected() {
    let mut h = setup();
    h.init(100, 1000).unwrap();
    h.mint(BUYER, 100_000);
    h.whitelist(BUYER).unwrap();

    let r = h.m.set_max_shares_per_user(50);
    h.apply(r).unwrap();

    let result = h.buy(BUYER, 60);
    assert!(result.is_err());

    assert_eq!(h.balance(BUYER), 100_000);
    assert_eq!(h.m.get_shares(BUYER), 0);
    assert_eq!(h.m.get_available_shares(), 1000);
}

#[test]
fn test_cap_zero_means_unlimited() {
    let mut h = setup();
    h.init(100, 1000).unwrap();
    h.mint(BUYER, 1_000_000);
    h.whitelist(BUYER).unwrap();

    let r = h.m.set_max_shares_per_user(50);
    h.apply(r).unwrap();
    let r = h.m.set_max_shares_per_user(0);
    h.apply(r).unwrap();
    h.buy(BUYER, 900).unwrap();
    assert_eq!(h.m.get_shares(BUYER), 900);
}

#[test]
fn test_raising_cap_allows_more_purchases() {
    let mut h = setup();
    h.init(100, 1000).unwrap();
    h.mint(BUYER, 100_000);
    h.whitelist(BUYER).unwrap();

    let r = h.m.set_max_shares_per_user(50);
    h.apply(r).unwrap();
    h.buy(BUYER, 50).unwrap();

    let r = h.m.set_max_shares_per_user(100);
    h.apply(r).unwrap();
    h.buy(BUYER, 50).unwrap();
    assert_eq!(h.m.get_shares(BUYER), 100);
}

#[test]
fn test_cap_is_per_address_not_global() {
    let mut h = setup();
    h.init(100, 1000).unwrap();

    h.mint(BUYER, 100_000);
    h.mint(BUYER2, 100_000);
    h.whitelist(BUYER).unwrap();
    h.whitelist(BUYER2).unwrap();

    let r = h.m.set_max_shares_per_user(50);
    h.apply(r).unwrap();
    h.buy(BUYER, 50).unwrap();
    h.buy(BUYER2, 50).unwrap();
    assert_eq!(h.m.get_shares(BUYER), 50);
    assert_eq!(h.m.get_shares(BUYER2), 50);
}

#[test]
fn test_pre_init_set_max_shares_per_user() {
    let mut h = setup();
    assert_eq!(h.m.set_max_shares_per_user(50), Err(MarketError::NotInitialized));
}

// ── Transfers and allowances ────────────────────────────────────────────

#[test]
fn test_transfer_shares_basic() {
    let mut h = setup();
    h.init(100, 1000).unwrap();
    h.mint(BUYER, 100_000);
    h.whitelist(BUYER).unwrap();
    h.buy(BUYER, 50).unwrap();

    h.transfer(BUYER, RECIPIENT, 20).unwrap();

    assert_eq!(h.m.get_shares(BUYER), 30);
    assert_eq!(h.m.get_shares(RECIPIENT), 20);
}

#[test]
fn test_transfer_shares_insufficient_balance() {
    let mut h = setup();
    h.init(100, 1000).unwrap();
    h.mint(BUYER, 100_000);
    h.whitelist(BUYER).unwrap();
    h.buy(BUYER, 10).unwrap();

    assert_eq!(h.transfer(BUYER, RECIPIENT, 20), Err(MarketError::InsufficientShares));
}

#[test]
fn test_transfer_shares_zero_amount() {
    let mut h = setup();
    h.init(100, 1000).unwrap();
    h.mint(BUYER, 100_000);
    h.whitelist(BUYER).unwrap();
    h.buy(BUYER, 10).unwrap();

    assert_eq!(h.transfer(BUYER, RECIPIENT, 0), Err(MarketError::TransferAmountZero));
}

#[test]
fn test_approve_and_transfer_from() {
    let mut h = setup();
    h.init(100, 1000).unwrap();
    h.mint(BUYER, 100_000);
    h.whitelist(BUYER).unwrap();
    h.buy(BUYER, 50).unwrap();

    let effects = h.m.approve(BUYER, SPENDER, 30);
    h.perform(effects);
    assert_eq!(h.m.allowance(BUYER, SPENDER), 30);

    let r = h.m.transfer_shares_from(SPENDER, BUYER, RECIPIENT, 20, h.oracle_reply);
    h.apply(r).unwrap();

    assert_eq!(h.m.get_shares(BUYER), 30);
    assert_eq!(h.m.get_shares(RECIPIENT), 20);
    assert_eq!(h.m.allowance(BUYER, SPENDER), 10);
}

#[test]
fn test_transfer_from_exceeds_allowance() {
    let mut h = setup();
    h.init(100, 1000).unwrap();
    h.mint(BUYER, 100_000);
    h.whitelist(BUYER).unwrap();
    h.buy(BUYER, 50).unwrap();

    let effects = h.m.approve(BUYER, SPENDER, 10);
    h.perform(effects);
    assert_eq!(
        h.m.transfer_shares_from(SPENDER, BUYER, RECIPIENT, 20, h.oracle_reply),
        Err(MarketError::AllowanceExceeded)
    );
}

#[test]
fn test_transfer_registers_recipient_as_holder() {
    let mut h = setup();
    h.init(100, 1000).unwrap();
    h.mint(BUYER, 100_000);
    h.whitelist(BUYER).unwrap();
    h.buy(BUYER, 50).unwrap();

    assert_eq!(h.m.get_holders().len(), 1);

    h.transfer(BUYER, RECIPIENT, 10).unwrap();
    assert_eq!(h.m.get_holders().len(), 2);
}

// ── Buybacks ────────────────────────────────────────────────────────────

#[test]
fn test_buyback_shares_basic() {
    let mut h = setup();
    h.init(100, 1000).unwrap();
    h.mint(BUYER, 100_000);
    h.whitelist(BUYER).unwrap();
    h.buy(BUYER, 100).unwrap();

    h.mint(CONTRACT, 10_000);

    let available_before = h.m.get_available_shares();
    let seller_balance_before = h.balance(BUYER);

    let r = h.m.buyback_shares(BUYER, 50, h.oracle_reply);
    h.apply(r).unwrap();

    assert_eq!(h.m.get_shares(BUYER), 50);
    assert_eq!(h.balance(BUYER), seller_balance_before + 5_000);
    assert_eq!(h.m.get_available_shares(), available_before + 50);
}

#[test]
fn test_buyback_shares_zero() {
    let mut h = setup();
    h.init(100, 1000).unwrap();
    h.mint(BUYER, 100_000);
    h.whitelist(BUYER).unwrap();
    h.buy(BUYER, 10).unwrap();
    assert_eq!(h.m.buyback_shares(BUYER, 0, None), Err(MarketError::BuybackAmountZero));
}

#[test]
fn test_buyback_shares_insufficient() {
    let mut h = setup();
    h.init(100, 1000).unwrap();
    h.mint(BUYER, 100_000);
    h.whitelist(BUYER).unwrap();
    h.buy(BUYER, 10).unwrap();
    h.mint(CONTRACT, 1_000_000);
    assert_eq!(h.m.buyback_shares(BUYER, 20, None), Err(MarketError::SellerInsufficientShares));
}

#[test]
fn test_auto_buyback_config_sets_values() {
    let mut h = setup();
    h.init(100, 1000).unwrap();
    let r = h.m.auto_buyback_config(3600_u64, 50_u32, 100_000_i128);
    h.apply(r).unwrap();
    let config = h.m.get_buyback_config().unwrap();
    assert_eq!(config.interval, 3600);
    assert_eq!(config.max_amount, 50);
    assert_eq!(config.budget, 100_000);
}

#[test]
fn test_auto_buyback_config_zero_interval() {
    let mut h = setup();
    h.init(100, 1000).unwrap();
    assert_eq!(h.m.auto_buyback_config(0_u64, 10_u32, 1000_i128), Err(MarketError::IntervalNotPositive));
}

#[test]
fn test_auto_buyback_config_zero_max_amount() {
    let mut h = setup();
    h.init(100, 1000).unwrap();
    assert_eq!(h.m.auto_buyback_config(3600_u64, 0_u32, 1000_i128), Err(MarketError::MaxAmountZero));
}

#[test]
fn test_auto_buyback_config_zero_budget() {
    let mut h = setup();
    h.init(100, 1000).unwrap();
    assert_eq!(h.m.auto_buyback_config(3600_u64, 10_u32, 0_i128), Err(MarketError::BudgetNotPositive));
}

#[test]
fn test_process_auto_buyback_succeeds() {
    let mut h = setup();
    h.init(100, 1000).unwrap();
    h.mint(BUYER, 100_000);
    h.whitelist(BUYER).unwrap();
    h.buy(BUYER, 100).unwrap();

    h.mint(CONTRACT, 50_000);
    let r = h.m.auto_buyback_config(3600_u64, 50_u32, 50_000_i128);
    h.apply(r).unwrap();

    h.now += 3601;

    let r = h.m.process_auto_buyback(BUYER, 30, h.now, h.oracle_reply);
    h.apply(r).unwrap();

    assert_eq!(h.m.get_shares(BUYER), 70);
    assert_eq!(h.m.get_available_shares(), 930);
}

#[test]
fn test_process_auto_buyback_too_soon() {
    let mut h = setup();
    h.init(100, 1000).unwrap();
    h.mint(BUYER, 100_000);
    h.whitelist(BUYER).unwrap();
    h.buy(BUYER, 100).unwrap();
    h.mint(CONTRACT, 50_000);
    let r = h.m.auto_buyback_config(3600_u64, 50_u32, 50_000_i128);
    h.apply(r).unwrap();

    assert_eq!(
        h.m.process_auto_buyback(BUYER, 10, h.now, None),
        Err(MarketError::AutoBuybackIntervalNotElapsed)
    );
}

#[test]
fn test_process_auto_buyback_exceeds_max() {
    let mut h = setup();
    h.init(100, 1000).unwrap();
    h.mint(BUYER, 100_000);
    h.whitelist(BUYER).unwrap();
    h.buy(BUYER, 100).unwrap();
    h.mint(CONTRACT, 50_000);
    let r = h.m.auto_buyback_config(3600_u64, 20_u32, 50_000_i128);
    h.apply(r).unwrap();

    h.now += 3601;
    assert_eq!(
        h.m.process_auto_buyback(BUYER, 30, h.now, None),
        Err(MarketError::AmountExceedsAutoBuybackMax)
    );
}

#[test]
fn test_process_auto_buyback_exceeds_budget() {
    let mut h = setup();
    h.init(100, 1000).unwrap();
    h.mint(BUYER, 100_000);
    h.whitelist(BUYER).unwrap();
    h.buy(BUYER, 100).unwrap();

    h.mint(CONTRACT, 500);
    let r = h.m.auto_buyback_config(3600_u64, 50_u32, 500_i128);
    h.apply(r).unwrap();

    h.now += 3601;
    assert_eq!(
        h.m.process_auto_buyback(BUYER, 10, h.now, None),
        Err(MarketError::InsufficientAutoBuybackBudget)
    );
}

#[test]
fn test_process_auto_buyback_not_configured() {
    let mut h = setup();
    h.init(100, 1000).unwrap();
    assert_eq!(
        h.m.process_auto_buyback(BUYER, 10, h.now, None),
        Err(MarketError::AutoBuybackNotConfigured)
    );
}

// ── Share certificates ──────────────────────────────────────────────────

#[test]
fn test_set_and_get_nft_contract() {
    let mut h = setup();
    h.init(100, 1000).unwrap();

    let r = h.m.set_nft_contract(NFT);
    h.apply(r).unwrap();
    assert_eq!(h.m.get_nft_contract(), Some(NFT));
}

#[test]
fn test_get_nft_contract_default_none() {
    let mut h = setup();
    h.init(100, 1000).unwrap();

    assert_eq!(h.m.get_nft_contract(), None);
}

#[test]
fn test_buy_shares_mints_nfts() {
    let mut h = setup();
    h.init(100, 1000).unwrap();
    h.mint(BUYER, 100_000);
    h.whitelist(BUYER).unwrap();

    let r = h.m.set_nft_contract(NFT);
    h.apply(r).unwrap();

    h.buy(BUYER, 3).unwrap();

    assert_eq!(h.certificates_of(NFT, BUYER), 3);
}

#[test]
fn test_buy_shares_without_nft_contract_still_works() {
    let mut h = setup();
    h.init(100, 1000).unwrap();
    h.mint(BUYER, 100_000);
    h.whitelist(BUYER).unwrap();

    h.buy(BUYER, 5).unwrap();
    assert_eq!(h.m.get_shares(BUYER), 5);
    assert!(h.certificates.is_empty());
}

#[test]
fn test_nft_owner_is_buyer() {
    let mut h = setup();
    h.init(100, 1000).unwrap();
    h.mint(BUYER, 100_000);
    h.whitelist(BUYER).unwrap();

    let r = h.m.set_nft_contract(NFT);
    h.apply(r).unwrap();

    h.buy(BUYER, 1).unwrap();

    // The first certificate (id 0) belongs to the buyer.
    assert_eq!(h.certificates[0], (NFT, BUYER));
}

// ── The reentrancy guard ────────────────────────────────────────────────

#[test]
fn test_reentrancy_is_blocked() {
    let mut h = setup();
    h.init(100, 1000).unwrap();
    h.mint(BUYER, 100_000);
    h.whitelist(BUYER).unwrap();

    h.m.reentrancy_guard = true;

    assert_eq!(h.buy(BUYER, 10), Err(MarketError::Reentrancy));
}

#[test]
fn test_reentrancy_guard_cleared_after_successful_buy() {
    let mut h = setup();
    h.init(100, 1000).unwrap();
    h.mint(BUYER, 100_000);
    h.whitelist(BUYER).unwrap();

    assert!(!h.m.reentrancy_guard);

    h.buy(BUYER, 10).unwrap();

    assert!(!h.m.reentrancy_guard);
}

#[test]
fn test_reentrancy_blocked_on_panic_path() {
    let mut h = setup();
    h.init(100, 1000).unwrap();
    h.mint(BUYER, 100_000);
    h.whitelist(BUYER).unwrap();

    h.m.reentrancy_guard = true;
    h.m.paused = Some(true);

    assert_eq!(h.buy(BUYER, 10), Err(MarketError::Reentrancy));
}

#[test]
fn test_reentrancy_guard_default_false() {
    let mut h = setup();
    h.init(100, 1000).unwrap();

    assert!(!h.m.reentrancy_guard);
}

#[test]
fn test_double_reentrancy_blocked() {
    let mut h = setup();
    h.init(100, 1000).unwrap();
    h.mint(BUYER, 100_000);
    h.whitelist(BUYER).unwrap();

    h.m.reentrancy_guard = true;

    assert_eq!(h.buy(BUYER, 10), Err(MarketError::Reentrancy));
}

// ── Events ──────────────────────────────────────────────────────────────

#[test]
fn test_event_emission_on_init() {
    let mut h = setup();
    h.init(100, 1000).unwrap();
    assert!(h.emitted(&Event::Init(EventInit { admin: ADMIN, payment_token: TOKEN, price: 100, total_shares: 1000 })));
}

#[test]
fn test_event_emission_on_buy_shares() {
    let mut h = setup();
    h.init(100, 1000).unwrap();
    h.mint(BUYER, 100_000);
    h.whitelist(BUYER).unwrap();
    h.buy(BUYER, 10).unwrap();
    assert!(h.emitted(&Event::BuyShares(EventBuyShares { buyer: BUYER, shares: 10, total_cost: 1000 })));
}

#[test]
fn test_event_emission_on_pause() {
    let mut h = setup();
    h.init(100, 1000).unwrap();
    let r = h.m.pause();
    h.apply(r).unwrap();
    assert!(h.emitted(&Event::Pause(EventPause {})));
}

#[test]
fn test_event_emission_on_unpause() {
    let mut h = setup();
    h.init(100, 1000).unwrap();
    let r = h.m.pause();
    h.apply(r).unwrap();
    let r = h.m.unpause();
    h.apply(r).unwrap();
    assert!(h.emitted(&Event::Unpause(EventUnpause {})));
}

#[test]
fn test_event_emission_on_set_price() {
    let mut h = setup();
    h.init(100, 1000).unwrap();
    let r = h.m.set_price(200);
    h.apply(r).unwrap();
    assert!(h.emitted(&Event::SetPrice(EventSetPrice { old_price: 100, new_price: 200 })));
}

#[test]
fn test_event_emission_on_set_total_shares() {
    let mut h = setup();
    h.init(100, 1000).unwrap();
    let r = h.m.set_total_shares(2000);
    h.apply(r).unwrap();
    assert!(!h.events.is_empty());
}

#[test]
fn test_event_emission_on_transfer() {
    let mut h = setup();
    h.init(100, 1000).unwrap();
    h.mint(BUYER, 100_000);
    h.whitelist(BUYER).unwrap();
    h.buy(BUYER, 50).unwrap();
    h.transfer(BUYER, RECIPIENT, 20).unwrap();
    assert!(h.emitted(&Event::Transfer(EventTransfer { from: BUYER, to: RECIPIENT, amount: 20 })));
}

#[test]
fn test_event_emission_on_approve() {
    let mut h = setup();
    h.init(100, 1000).unwrap();
    h.mint(BUYER, 100_000);
    h.whitelist(BUYER).unwrap();
    h.buy(BUYER, 50).unwrap();
    let effects = h.m.approve(BUYER, SPENDER, 30);
    h.perform(effects);
    assert!(h.emitted(&Event::Approval(EventApproval { owner: BUYER, spender: SPENDER, amount: 30 })));
}

#[test]
fn test_event_emission_on_sell_order_flow() {
    let mut h = setup();
    h.init(100, 1000).unwrap();
    h.mint(BUYER, 100_000);
    h.whitelist(BUYER).unwrap();
    h.buy(BUYER, 50).unwrap();
    let (order_id, effects) = h.m.place_sell_order(BUYER, 20, 150).unwrap();
    h.perform(effects);
    assert_eq!(order_id, 0);
    let r = h.m.cancel_sell_order(0);
    h.apply(r).unwrap();
    assert!(h.emitted(&Event::OrderPlaced(EventOrderPlaced { order_id: 0, seller: BUYER, amount: 20, price_per_share: 150 })));
    assert!(h.emitted(&Event::OrderCancelled(EventOrderCancelled { order_id: 0, seller: BUYER })));
}

#[test]
fn test_event_emission_on_buyback() {
    let mut h = setup();
    h.init(100, 1000).unwrap();
    h.mint(BUYER, 100_000);
    h.whitelist(BUYER).unwrap();
    h.buy(BUYER, 100).unwrap();
    h.mint(CONTRACT, 10_000);
    let r = h.m.buyback_shares(BUYER, 50, h.oracle_reply);
    h.apply(r).unwrap();
    assert!(h.emitted(&Event::BuybackShares(EventBuybackShares { seller: BUYER, amount: 50, total_cost: 5000 })));
}

#[test]
fn test_event_emission_on_auto_buyback_config() {
    let mut h = setup();
    h.init(100, 1000).unwrap();
    let r = h.m.auto_buyback_config(3600_u64, 50_u32, 100_000_i128);
    h.apply(r).unwrap();
    assert!(!h.events.is_empty());
}

#[test]
fn test_event_emission_on_set_max_shares_per_user() {
    let mut h = setup();
    h.init(100, 1000).unwrap();
    let r = h.m.set_max_shares_per_user(100);
    h.apply(r).unwrap();
    assert!(!h.events.is_empty());
}

#[test]
fn test_event_emission_on_emergency_withdraw() {
    let mut h = setup();
    h.init(100, 1000).unwrap();
    let r = h.m.emergency_withdraw(ADMIN, 0);
    h.apply(r).unwrap();
    assert!(h.emitted(&Event::EmergencyWithdraw(EventEmergencyWithdraw { to: ADMIN, amount: 0 })));
}

#[test]
fn test_event_emission_on_distribute_dividends() {
    let mut h = setup();
    h.init(100, 1000).unwrap();
    h.mint(BUYER, 100_000);
    h.whitelist(BUYER).unwrap();
    h.buy(BUYER, 500).unwrap();
    let dividend_amount: i128 = 10_000;
    h.mint(CONTRACT, dividend_amount);
    let r = h.m.distribute_dividends(TOKEN, dividend_amount);
    h.apply(r).unwrap();
    assert!(h.events.iter().any(|e| matches!(e, Event::DistributeDividends(_))));
}

#[test]
fn test_event_emission_on_set_dividend_schedule() {
    let mut h = setup();
    h.init(100, 1000).unwrap();
    let r = h.m.set_dividend_schedule(10_i128, 86400_u64);
    h.apply(r).unwrap();
    assert!(h.events.iter().any(|e| matches!(e, Event::SetDividendSchedule(_))));
}

#[test]
fn test_event_emission_on_process_scheduled_dividend() {
    let mut h = setup();
    h.init(100, 1000).unwrap();
    h.mint(BUYER, 100_000);
    h.whitelist(BUYER).unwrap();
    h.buy(BUYER, 500).unwrap();
    let r = h.m.set_dividend_schedule(1, 100);
    h.apply(r).unwrap();
    h.mint(CONTRACT, 500);
    h.now += 101;
    let r = h.m.process_scheduled_dividend(h.now);
    h.apply(r).unwrap();
    assert!(h.events.iter().any(|e| matches!(e, Event::ScheduledDividend(_))));
}

#[test]
fn test_event_emission_on_set_nft_contract() {
    let mut h = setup();
    h.init(100, 1000).unwrap();
    let r = h.m.set_nft_contract(NFT);
    h.apply(r).unwrap();
    assert!(h.events.iter().any(|e| matches!(e, Event::NftContractSet(_))));
}

#[test]
fn test_event_emission_on_whitelist_ops() {
    let mut h = setup();
    h.init(100, 1000).unwrap();
    h.whitelist(RECIPIENT).unwrap();
    let r = h.m.remove_from_whitelist(RECIPIENT);
    h.apply(r).unwrap();
    assert!(h.emitted(&Event::Whitelisted(EventWhitelisted { addr: RECIPIENT })));
    assert!(h.emitted(&Event::WhitelistRemoved(EventWhitelistRemoved { addr: RECIPIENT })));
}

#[test]
fn test_event_emission_on_set_metadata_uri() {
    let mut h = setup();
    h.init(100, 1000).unwrap();
    let r = h.m.set_metadata_uri(b"ipfs://QmTest".to_vec());
    h.apply(r).unwrap();
    assert!(h.events.iter().any(|e| matches!(e, Event::MetadataUriSet(_))));
}

#[test]
fn test_event_emission_on_claim_vested_shares() {
    let mut h = setup();
    h.init(100, 1000).unwrap();
    h.mint(BUYER, 100_000);
    h.whitelist(BUYER).unwrap();
    let r = h.m.buy_vested_shares(BUYER, 10, 1, TOKEN, h.now, h.oracle_reply);
    h.apply(r).unwrap();
    h.now += 2;
    let r = h.m.claim_vested_shares(BUYER, h.now);
    h.apply(r).unwrap();
    assert!(h.emitted(&Event::ClaimVestedShares(EventClaimVestedShares { claimer: BUYER, amount: 10 })));
}

// ── Timelocked operations ───────────────────────────────────────────────

#[test]
fn test_timelock_delay() {
    let mut h = setup();
    h.init(100_i128, 1000_u32).unwrap();

    let action = AdminAction::Pause;

    let r = h.m.schedule_operation(ADMIN, action, h.now);
    h.apply(r).unwrap();
    h.now += 176_400;
    let r = h.m.execute_operation(ADMIN, action, h.now);
    h.apply(r).unwrap();

    assert_eq!(h.m.is_paused(), true);
}

#[test]
fn test_timelock_schedule_event() {
    let mut h = setup();
    h.init(100_i128, 1000_u32).unwrap();

    let action = AdminAction::Pause;
    let r = h.m.schedule_operation(ADMIN, action, h.now);
    h.apply(r).unwrap();
    assert!(h.emitted(&Event::OperationScheduled(EventOperationScheduled { action, execute_after: 172_800 })));
}

#[test]
fn test_timelock_cancel_event() {
    let mut h = setup();
    h.init(100_i128, 1000_u32).unwrap();

    let action = AdminAction::Pause;
    let r = h.m.schedule_operation(ADMIN, action, h.now);
    h.apply(r).unwrap();
    let r = h.m.cancel_operation(ADMIN, action);
    h.apply(r).unwrap();
    assert!(h.emitted(&Event::OperationCancelled(EventOperationCancelled { action })));
}

#[test]
fn test_timelock_execute_event() {
    let mut h = setup();
    h.init(100_i128, 1000_u32).unwrap();

    let action = AdminAction::Unpause;
    let r = h.m.schedule_operation(ADMIN, action, h.now);
    h.apply(r).unwrap();
    h.now += 176_400;
    let r = h.m.execute_operation(ADMIN, action, h.now);
    h.apply(r).unwrap();
    assert!(h.emitted(&Event::OperationExecuted(EventOperationExecuted { action })));
}

// ── The price oracle ────────────────────────────────────────────────────

fn init_with_buyer() -> Host {
    let mut h = setup();
    h.mint(BUYER, 100_000_000);
    h.init(INIT_PRICE, INIT_TOTAL).unwrap();
    h.whitelist(BUYER).unwrap();
    h
}

#[test]
fn test_set_and_get_oracle() {
    let mut h = init_with_buyer();

    assert!(h.m.get_oracle().is_none());
    let r = h.m.set_oracle(ORACLE);
    h.apply(r).unwrap();
    assert_eq!(h.m.get_oracle(), Some(ORACLE));
}

#[test]
fn test_clear_oracle() {
    let mut h = init_with_buyer();

    let r = h.m.set_oracle(ORACLE);
    h.apply(r).unwrap();
    assert!(h.m.get_oracle().is_some());
    let r = h.m.clear_oracle();
    h.apply(r).unwrap();
    assert!(h.m.get_oracle().is_none());
}

#[test]
fn test_set_oracle_requires_init() {
    let mut h = setup();
    assert_eq!(h.m.set_oracle(ORACLE), Err(MarketError::NotInitialized));
}

#[test]
fn test_buy_shares_without_oracle_uses_admin_price() {
    let mut h = init_with_buyer();

    let balance_before = h.balance(BUYER);
    h.buy(BUYER, 10).unwrap();
    let balance_after = h.balance(BUYER);

    assert_eq!(balance_before - balance_after, 10 * INIT_PRICE);
    assert_eq!(h.m.get_shares(BUYER), 10);
}

// ── The bridge lock ─────────────────────────────────────────────────────

#[test]
fn test_lock_for_bridge_reduces_liquid_balance() {
    let mut h = init_with_buyer();

    h.buy(BUYER, 100).unwrap();
    assert_eq!(h.m.get_shares(BUYER), 100);

    let r = h.m.lock_for_bridge(BUYER, 30);
    h.apply(r).unwrap();
    assert_eq!(h.m.get_shares(BUYER), 70);
    assert_eq!(h.m.get_bridge_locked(BUYER), 30);
}

#[test]
fn test_multiple_lock_for_bridge_accumulates() {
    let mut h = init_with_buyer();

    h.buy(BUYER, 100).unwrap();
    let r = h.m.lock_for_bridge(BUYER, 20);
    h.apply(r).unwrap();
    let r = h.m.lock_for_bridge(BUYER, 10);
    h.apply(r).unwrap();

    assert_eq!(h.m.get_shares(BUYER), 70);
    assert_eq!(h.m.get_bridge_locked(BUYER), 30);
}

#[test]
fn test_lock_for_bridge_insufficient_balance() {
    let mut h = init_with_buyer();

    h.buy(BUYER, 10).unwrap();
    assert_eq!(h.m.lock_for_bridge(BUYER, 100), Err(MarketError::InsufficientLiquidToLock));
}

#[test]
fn test_lock_for_bridge_zero_amount() {
    let mut h = init_with_buyer();
    assert_eq!(h.m.lock_for_bridge(BUYER, 0), Err(MarketError::BridgeLockAmountZero));
}

#[test]
fn test_unlock_from_bridge_restores_liquid_balance() {
    let mut h = init_with_buyer();

    h.buy(BUYER, 100).unwrap();
    let r = h.m.lock_for_bridge(BUYER, 50);
    h.apply(r).unwrap();

    let valid_proof = [1u8; 32];
    let r = h.m.unlock_from_bridge(BUYER, 50, valid_proof);
    h.apply(r).unwrap();

    assert_eq!(h.m.get_shares(BUYER), 100);
    assert_eq!(h.m.get_bridge_locked(BUYER), 0);
}

#[test]
fn test_partial_unlock_from_bridge() {
    let mut h = init_with_buyer();

    h.buy(BUYER, 100).unwrap();
    let r = h.m.lock_for_bridge(BUYER, 60);
    h.apply(r).unwrap();

    let proof = [2u8; 32];
    let r = h.m.unlock_from_bridge(BUYER, 25, proof);
    h.apply(r).unwrap();

    assert_eq!(h.m.get_shares(BUYER), 65);
    assert_eq!(h.m.get_bridge_locked(BUYER), 35);
}

#[test]
fn test_unlock_from_bridge_excess_amount() {
    let mut h = init_with_buyer();

    h.buy(BUYER, 100).unwrap();
    let r = h.m.lock_for_bridge(BUYER, 10);
    h.apply(r).unwrap();

    assert_eq!(h.m.unlock_from_bridge(BUYER, 100, [3u8; 32]), Err(MarketError::InsufficientLockedToUnlock));
}

#[test]
fn test_unlock_from_bridge_zero_proof_rejected() {
    let mut h = init_with_buyer();

    h.buy(BUYER, 50).unwrap();
    let r = h.m.lock_for_bridge(BUYER, 10);
    h.apply(r).unwrap();

    assert_eq!(h.m.unlock_from_bridge(BUYER, 10, [0u8; 32]), Err(MarketError::ZeroBridgeProof));
}

#[test]
fn test_unlock_from_bridge_zero_amount() {
    let mut h = init_with_buyer();

    h.buy(BUYER, 50).unwrap();
    let r = h.m.lock_for_bridge(BUYER, 10);
    h.apply(r).unwrap();

    assert_eq!(h.m.unlock_from_bridge(BUYER, 0, [4u8; 32]), Err(MarketError::BridgeUnlockAmountZero));
}

#[test]
fn test_get_bridge_locked_default_zero() {
    let h = init_with_buyer();
    assert_eq!(h.m.get_bridge_locked(BUYER), 0);
}

#[test]
fn test_bridge_lock_does_not_affect_total_shares() {
    let mut h = init_with_buyer();

    let total_before = h.m.get_total_shares();
    h.buy(BUYER, 100).unwrap();
    let r = h.m.lock_for_bridge(BUYER, 50);
    h.apply(r).unwrap();

    assert_eq!(h.m.get_total_shares(), total_before);
}

// ── Contract metadata ───────────────────────────────────────────────────

#[test]
fn test_get_contract_metadata_returns_expected_values() {
    let h = init_with_buyer();
    let meta = h.m.get_contract_metadata().unwrap();

    assert_eq!(meta.name, "RWA Marketplace");
    assert_eq!(meta.version, "0.4.0");
    assert_eq!(meta.description, "Tokenized Fractional RWA Marketplace");
}

#[test]
fn test_get_contract_metadata_before_init_panics() {
    let h = setup();
    assert_eq!(h.m.get_contract_metadata(), Err(MarketError::NotInitialized));
}

// ── Batch purchases ─────────────────────────────────────────────────────

#[test]
fn test_batch_buy_shares_basic() {
    let mut h = setup();
    h.init(100, 1000).unwrap();
    h.mint(BUYER, 1_000_000);
    h.whitelist(BUYER).unwrap();

    let requests = vec![request(10), request(20), request(5)];

    let results = h.batch(BUYER, &requests).unwrap();
    assert_eq!(results.len(), 3);

    assert!(results[0].success);
    assert_eq!(results[0].shares_purchased, 10);
    assert_eq!(results[0].total_cost, 1000);

    assert!(results[1].success);
    assert_eq!(results[1].shares_purchased, 20);
    assert_eq!(results[1].total_cost, 2000);

    assert!(results[2].success);
    assert_eq!(results[2].shares_purchased, 5);
    assert_eq!(results[2].total_cost, 500);

    assert_eq!(h.m.get_shares(BUYER), 35);
    assert_eq!(h.m.get_available_shares(), 965);
}

#[test]
fn test_batch_buy_shares_partial_fulfillment() {
    let mut h = setup();
    h.init(100, 1000).unwrap();
    h.mint(BUYER, 1_000_000);
    h.whitelist(BUYER).unwrap();

    let requests = vec![request(10), request(0), request(15)];

    let results = h.batch(BUYER, &requests).unwrap();
    assert_eq!(results.len(), 3);

    assert!(results[0].success);
    assert!(!results[1].success);
    assert!(results[2].success);

    assert_eq!(h.m.get_shares(BUYER), 25);
    assert_eq!(h.m.get_available_shares(), 975);
}

#[test]
fn test_batch_buy_shares_exceeds_available() {
    let mut h = setup();
    h.init(100, 50).unwrap();
    h.mint(BUYER, 1_000_000);
    h.whitelist(BUYER).unwrap();

    let requests = vec![request(30), request(30)];

    let results = h.batch(BUYER, &requests).unwrap();
    assert_eq!(results.len(), 2);

    assert!(results[0].success);
    assert!(!results[1].success);

    assert_eq!(h.m.get_shares(BUYER), 30);
    assert_eq!(h.m.get_available_shares(), 20);
}

#[test]
fn test_batch_buy_shares_empty_batch() {
    let mut h = setup();
    h.init(100, 1000).unwrap();
    h.whitelist(BUYER).unwrap();

    let requests: Vec<BatchPurchaseRequest> = Vec::new();
    assert_eq!(h.batch(BUYER, &requests), Err(MarketError::EmptyBatch));
}

#[test]
fn test_batch_buy_shares_exceeds_max_batch_size() {
    let mut h = setup();
    h.init(100, 1000).unwrap();
    h.mint(BUYER, 1_000_000);
    h.whitelist(BUYER).unwrap();

    let requests: Vec<BatchPurchaseRequest> = (0..11u32).map(|_| request(1)).collect();
    assert_eq!(h.batch(BUYER, &requests), Err(MarketError::BatchTooLarge));
}

#[test]
fn test_batch_buy_shares_requires_whitelist() {
    let mut h = setup();
    h.init(100, 1000).unwrap();
    h.mint(BUYER, 1_000_000);

    let requests = vec![request(10)];
    assert_eq!(h.batch(BUYER, &requests), Err(MarketError::BuyerNotWhitelisted));
}

#[test]
fn test_batch_buy_shares_when_paused() {
    let mut h = setup();
    h.init(100, 1000).unwrap();
    h.mint(BUYER, 1_000_000);
    h.whitelist(BUYER).unwrap();
    let r = h.m.pause();
    h.apply(r).unwrap();

    let requests = vec![request(10)];
    assert_eq!(h.batch(BUYER, &requests), Err(MarketError::MarketplacePaused));
}

#[test]
fn test_batch_buy_shares_all_fail() {
    let mut h = setup();
    h.init(100, 1000).unwrap();
    h.mint(BUYER, 1_000_000);
    h.whitelist(BUYER).unwrap();

    let requests = vec![request(0), request(0)];

    let results = h.batch(BUYER, &requests).unwrap();
    assert_eq!(results.len(), 2);
    assert!(!results[0].success);
    assert!(!results[1].success);

    assert_eq!(h.m.get_shares(BUYER), 0);
    assert_eq!(h.m.get_available_shares(), 1000);
}

#[test]
fn test_get_batch_quote_accuracy() {
    let mut h = setup();
    h.init(100, 1000).unwrap();
    h.mint(BUYER, 1_000_000);
    h.whitelist(BUYER).unwrap();

    let requests = vec![request(10), request(0), request(25)];

    let quotes = h.m.get_batch_quote(BUYER, &requests, h.now, h.oracle_reply).unwrap();
    assert_eq!(quotes.len(), 3);

    assert!(quotes[0].success);
    assert_eq!(quotes[0].total_cost, 1000);

    assert!(!quotes[1].success);

    assert!(quotes[2].success);
    assert_eq!(quotes[2].total_cost, 2500);

    assert_eq!(h.m.get_available_shares(), 1000);
    assert_eq!(h.m.get_shares(BUYER), 0);
}

#[test]
fn test_batch_buy_shares_single_item() {
    let mut h = setup();
    h.init(100, 1000).unwrap();
    h.mint(BUYER, 1_000_000);
    h.whitelist(BUYER).unwrap();

    let requests = vec![request(50)];

    let results = h.batch(BUYER, &requests).unwrap();
    assert_eq!(results.len(), 1);
    assert!(results[0].success);
    assert_eq!(results[0].shares_purchased, 50);
    assert_eq!(results[0].total_cost, 5000);
    assert_eq!(h.m.get_shares(BUYER), 50);
    assert_eq!(h.m.get_available_shares(), 950);
}

#[test]
fn test_batch_buy_shares_max_batch_size() {
    let mut h = setup();
    h.init(100, 1000).unwrap();
    h.mint(BUYER, 1_000_000);
    h.whitelist(BUYER).unwrap();

    let requests: Vec<BatchPurchaseRequest> = (0..10u32).map(|_| request(1)).collect();

    let results = h.batch(BUYER, &requests).unwrap();
    assert_eq!(results.len(), 10);
    for i in 0..10usize {
        assert!(results[i].success);
    }
    assert_eq!(h.m.get_shares(BUYER), 10);
    assert_eq!(h.m.get_available_shares(), 990);
}

// ── Whitelist enhancements ──────────────────────────────────────────────

#[test]
fn test_add_to_whitelist_batch() {
    let mut h = setup();
    h.init(100, 1000).unwrap();
    let a1 = 41;
    let a2 = 42;
    let addrs = vec![a1, a2];
    let r = h.m.add_to_whitelist_batch(&addrs);
    h.apply(r).unwrap();
    assert!(h.m.is_whitelisted(a1, h.now));
    assert!(h.m.is_whitelisted(a2, h.now));
}

#[test]
fn test_set_whitelist_expiry() {
    let mut h = setup();
    h.init(100, 1000).unwrap();
    let addr = RECIPIENT;
    h.whitelist(addr).unwrap();
    let far_future = h.now + 86_400;
    let r = h.m.set_whitelist_expiry(addr, far_future);
    h.apply(r).unwrap();
    assert!(h.m.is_whitelisted(addr, h.now));
    let r = h.m.set_whitelist_expiry(addr, 1_u64);
    h.apply(r).unwrap();
    assert!(!h.m.is_whitelisted(addr, h.now));
}

#[test]
fn test_set_whitelist_tier_invalid() {
    let mut h = setup();
    h.init(100, 1000).unwrap();
    assert_eq!(h.m.set_whitelist_tier(RECIPIENT, 5_u32), Err(MarketError::InvalidTier));
}

// ── Transfer fee ────────────────────────────────────────────────────────

#[test]
fn test_set_and_get_transfer_fee() {
    let mut h = setup();
    h.init(100, 1000).unwrap();
    let r = h.m.set_transfer_fee(30_u32, COLLECTOR);
    h.apply(r).unwrap();
    let (fee_bps, fee_collector) = h.m.get_transfer_fee();
    assert_eq!(fee_bps, 30);
    assert_eq!(fee_collector, Some(COLLECTOR));
}

#[test]
fn test_set_transfer_fee_too_high() {
    let mut h = setup();
    h.init(100, 1000).unwrap();
    assert_eq!(h.m.set_transfer_fee(2000_u32, COLLECTOR), Err(MarketError::TransferFeeTooHigh));
}

// ── Buyback requests ────────────────────────────────────────────────────

#[test]
fn test_request_buyback() {
    let mut h = setup();
    h.init(100, 1000).unwrap();
    h.mint(BUYER, 100_000);
    h.whitelist(BUYER).unwrap();
    h.buy(BUYER, 100).unwrap();
    let (request_id, effects) = h.m.request_buyback(BUYER, 50, 95_i128, h.now).unwrap();
    h.perform(effects);
    let request = h.m.get_buyback_request(request_id);
    assert!(request.is_some());
}

#[test]
fn test_buyback_paused() {
    let mut h = setup();
    h.init(100, 1000).unwrap();
    h.mint(BUYER, 100_000);
    h.whitelist(BUYER).unwrap();
    h.buy(BUYER, 100).unwrap();
    h.mint(CONTRACT, 50_000);
    let r = h.m.pause_function(4_u32);
    h.apply(r).unwrap();
    assert_eq!(h.m.buyback_shares(BUYER, 10, None), Err(MarketError::BuybacksPaused));
}
