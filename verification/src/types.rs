//! The records the marketplace keeps and hands out.
use vstd::prelude::*;

use crate::table::{TableKey, Weighted};

verus! {

/// An account, token contract or other contract, identified by a number
/// that the host environment assigns to each address.
pub type AccountId = u64;

/// A vesting schedule: `total_amount` shares unlock linearly between
/// `start + cliff` and `start + duration`.
#[derive(Clone, Copy, Debug, PartialEq, Eq, Structural)]
pub struct VestingSchedule {
    pub start: u64,
    pub cliff: u64,
    pub duration: u64,
    pub total_amount: u32,
    pub claimed_amount: u32,
}

/// The marketplace's own name, version and description.
#[derive(Clone, Debug, PartialEq, Eq)]
pub struct ContractMetadata {
    pub name: String,
    pub version: String,
    pub description: String,
}

/// An open order: `amount` shares escrowed by `seller` at `price_per_share`.
#[derive(Clone, Copy, Debug, PartialEq, Eq, Structural)]
pub struct SellOrder {
    pub seller: AccountId,
    pub amount: u32,
    pub price_per_share: i128,
}

impl Weighted for SellOrder {
    open spec fn weight(&self) -> int {
        self.amount as int
    }

    proof fn lemma_weight_nonneg(&self) {
    }
}

/// A recurring dividend: `amount_per_share` every `interval` seconds.
#[derive(Clone, Copy, Debug, PartialEq, Eq, Structural)]
pub struct DividendSchedule {
    pub amount_per_share: i128,
    pub interval: u64,
}

#[derive(Clone, Copy, Debug, PartialEq, Eq, Structural)]
pub struct AutoBuybackConfig {
    /// Minimum seconds that must elapse between auto-buyback executions.
    pub interval: u64,
    /// Maximum shares that can be bought back in a single auto-buyback call.
    pub max_amount: u32,
    /// Total token budget remaining for auto-buybacks.
    pub budget: i128,
}

#[derive(Clone, Copy, Debug, PartialEq, Eq, Structural)]
pub struct FlashLoanGuardConfig {
    pub enabled: bool,
    pub max_single_block_volume_pct: u32,
    pub min_block_interval: u32,
    pub override_active: bool,
}

/// A scheduled upgrade of the contract's code.
#[derive(Clone, Copy, Debug, PartialEq, Eq)]
pub struct UpgradeConfig {
    pub new_wasm_hash: [u8; 32],
    pub scheduled_ledger: u64,
    pub proposer: AccountId,
}

#[derive(Clone, Copy, Debug, PartialEq, Eq, Structural)]
pub struct CircuitBreakerConfig {
    pub enabled: bool,
    /// Maximum percentage change allowed in a single block (basis points, 100 = 1%)
    pub max_price_change_bps: u32,
    /// Maximum number of shares that can be traded in a single block
    pub max_volume_per_block: u32,
    /// Whether the circuit breaker is currently armed (can trigger)
    pub armed: bool,
}

/// The critical state values recorded by a snapshot, for recovery.
#[derive(Clone, Copy, Debug, PartialEq, Eq, Structural)]
pub struct StateSnapshot {
    /// The ledger sequence at which the snapshot was taken.
    pub ledger: u64,
    pub total_shares: u32,
    pub available_shares: u32,
    pub price_per_share: i128,
    pub paused: bool,
    pub pause_flags: u32,
}

/// Composite whitelist status of an address.
#[derive(Clone, Copy, Debug, PartialEq, Eq, Structural)]
pub struct WhitelistInfo {
    pub whitelisted: bool,
    pub tier: u32,
    pub expiry: u64,
}

/// A user-submitted buyback request awaiting admin processing.
#[derive(Clone, Copy, Debug, PartialEq, Eq, Structural)]
pub struct BuybackRequest {
    pub request_id: u64,
    pub seller: AccountId,
    pub amount: u32,
    pub requested_price: i128,
    pub timestamp: u64,
}

/// A single purchase request within a batch.
#[derive(Clone, Copy, Debug, PartialEq, Eq, Structural)]
pub struct BatchPurchaseRequest {
    /// Number of shares to purchase in this item.
    pub shares: u32,
    /// Payment token to use for this item.
    pub payment_token: AccountId,
}

/// Result for a single item in a batch purchase.
#[derive(Clone, Copy, Debug, PartialEq, Eq, Structural)]
pub struct BatchPurchaseResult {
    /// Index of the request in the batch (0-based).
    pub index: u32,
    /// Whether this item succeeded.
    pub success: bool,
    /// Shares actually purchased (0 if failed).
    pub shares_purchased: u32,
    /// Total cost paid (0 if failed).
    pub total_cost: i128,
}

/// Key of an allowance: `spender` may move shares of `owner`.
#[derive(Clone, Copy, Debug, PartialEq, Eq, Structural)]
pub struct AllowanceKey {
    pub owner: AccountId,
    pub spender: AccountId,
}

impl TableKey for AllowanceKey {
    fn same_key(&self, other: &Self) -> (r: bool) {
        *self == *other
    }
}

/// An administrative action that runs behind a timelock.
#[derive(Clone, Copy, Debug, PartialEq, Eq, Structural)]
pub enum AdminAction {
    Pause,
    Unpause,
    EmergencyWithdraw(AccountId, i128),
}

impl TableKey for AdminAction {
    fn same_key(&self, other: &Self) -> (r: bool) {
        *self == *other
    }
}

/// Refusals of the timelocked operations.
#[derive(Clone, Copy, Debug, PartialEq, Eq, PartialOrd, Ord, Structural)]
pub enum TimelockError {
    NotScheduled,
    TimelockNotExpired,
    AlreadyScheduled,
}

/// Why a request to the marketplace is refused. A refused request changes
/// nothing.
#[derive(Clone, Copy, Debug, PartialEq, Eq, Structural)]
pub enum MarketError {
    NotInitialized,
    AlreadyInitialized,
    InitPriceNotPositive,
    InitTotalSharesZero,
    Reentrancy,
    MarketplacePaused,
    PurchasesPaused,
    TransfersPaused,
    TransfersFromPaused,
    DividendsPaused,
    SellOrdersPaused,
    BuybacksPaused,
    CircuitBreakerActive,
    BuyerNotWhitelisted,
    WhitelistExpired,
    NotEnoughSharesAvailable,
    ZeroSharePurchase,
    MaxSharesPerUserExceeded,
    PaymentTokenNotAccepted,
    ArithmeticOverflow,
    ArithmeticUnderflow,
    InvalidTier,
    TokenAlreadyAccepted,
    CannotRemoveDefaultToken,
    TokenNotAccepted,
    DividendAmountNotPositive,
    NoSharesIssued,
    NoHoldersRegistered,
    VestingDurationZero,
    NothingToClaim,
    AmountPerShareNotPositive,
    IntervalNotPositive,
    TimestampBeforeLastDistribution,
    DividendScheduleNotConfigured,
    DividendIntervalNotElapsed,
    DividendTotalNotPositive,
    NoPendingUpgrade,
    UpgradeTimelockNotElapsed,
    NoPendingUpgradeToCancel,
    TimelockZero,
    InvalidFunctionId,
    CircuitBreakerNotEnabled,
    RecoveryNotEnabled,
    InvalidSnapshotId,
    PriceNotPositive,
    TotalBelowAvailable,
    TotalBelowIssued,
    TransferFeeTooHigh,
    TransferAmountZero,
    InsufficientShares,
    AllowanceExceeded,
    FeeCollectorNotConfigured,
    OrderAmountZero,
    OrderPriceNotPositive,
    InsufficientLiquidShares,
    OrderNotFound,
    PurchaseAmountZero,
    AmountExceedsOrder,
    BuybackAmountZero,
    SellerInsufficientShares,
    MaxAmountZero,
    BudgetNotPositive,
    AutoBuybackNotConfigured,
    AutoBuybackIntervalNotElapsed,
    AmountExceedsAutoBuybackMax,
    InsufficientAutoBuybackBudget,
    InsufficientSharesForRequest,
    EmptyBatch,
    BatchTooLarge,
    BridgeLockAmountZero,
    InsufficientLiquidToLock,
    BridgeUnlockAmountZero,
    ZeroBridgeProof,
    InsufficientLockedToUnlock,
    Timelock(TimelockError),
}

} // verus!
