//! What the marketplace reports and what it asks its host to do.
use vstd::prelude::*;

use crate::types::{AccountId, AdminAction};

verus! {

/// Shares bought back from a holder into the pool.
#[derive(Clone, Debug, PartialEq, Eq)]
pub struct EventBuybackShares {
    pub seller: AccountId,
    pub amount: u32,
    pub total_cost: i128,
}

/// The auto-buyback configuration was replaced.
#[derive(Clone, Debug, PartialEq, Eq)]
pub struct EventAutoBuybackConfig {
    pub interval: u64,
    pub max_amount: u32,
    pub budget: i128,
}

/// A token was added to the accepted payment tokens.
#[derive(Clone, Debug, PartialEq, Eq)]
pub struct EventAddPaymentToken {
    pub token: AccountId,
}

/// A token was removed from the accepted payment tokens.
#[derive(Clone, Debug, PartialEq, Eq)]
pub struct EventRemovePaymentToken {
    pub token: AccountId,
}

/// A sell order was placed.
#[derive(Clone, Debug, PartialEq, Eq)]
pub struct EventOrderPlaced {
    pub order_id: u64,
    pub seller: AccountId,
    pub amount: u32,
    pub price_per_share: i128,
}

/// A sell order was cancelled.
#[derive(Clone, Debug, PartialEq, Eq)]
pub struct EventOrderCancelled {
    pub order_id: u64,
    pub seller: AccountId,
}

/// Shares were bought from a sell order.
#[derive(Clone, Debug, PartialEq, Eq)]
pub struct EventOrderFilled {
    pub order_id: u64,
    pub buyer: AccountId,
    pub amount: u32,
    pub total_cost: i128,
}

/// The marketplace was initialized.
#[derive(Clone, Debug, PartialEq, Eq)]
pub struct EventInit {
    pub admin: AccountId,
    pub payment_token: AccountId,
    pub price: i128,
    pub total_shares: u32,
}

/// Shares were bought from the pool.
#[derive(Clone, Debug, PartialEq, Eq)]
pub struct EventBuyShares {
    pub buyer: AccountId,
    pub shares: u32,
    pub total_cost: i128,
}

/// The marketplace was paused.
#[derive(Clone, Debug, PartialEq, Eq)]
pub struct EventPause {}

/// The marketplace was unpaused.
#[derive(Clone, Debug, PartialEq, Eq)]
pub struct EventUnpause {}

/// Payment tokens were withdrawn from the contract.
#[derive(Clone, Debug, PartialEq, Eq)]
pub struct EventEmergencyWithdraw {
    pub to: AccountId,
    pub amount: i128,
}

/// The dividend schedule was set.
#[derive(Clone, Debug, PartialEq, Eq)]
pub struct EventSetDividendSchedule {
    pub amount_per_share: i128,
    pub interval: u64,
}

/// A scheduled dividend was distributed.
#[derive(Clone, Debug, PartialEq, Eq)]
pub struct EventScheduledDividend {
    pub total_amount: i128,
    pub holder_count: u32,
}

/// A dividend was distributed.
#[derive(Clone, Debug, PartialEq, Eq)]
pub struct EventDistributeDividends {
    pub token: AccountId,
    pub total_amount: i128,
    pub holder_count: u32,
}

/// The share price was changed.
#[derive(Clone, Debug, PartialEq, Eq)]
pub struct EventSetPrice {
    pub old_price: i128,
    pub new_price: i128,
}

/// The total share supply was changed.
#[derive(Clone, Debug, PartialEq, Eq)]
pub struct EventSetTotalShares {
    pub old_total: u32,
    pub new_total: u32,
}

/// The per-address cap was changed.
#[derive(Clone, Debug, PartialEq, Eq)]
pub struct EventSetMaxSharesPerUser {
    pub old_max: u32,
    pub new_max: u32,
}

/// Shares moved between holders.
#[derive(Clone, Debug, PartialEq, Eq)]
pub struct EventTransfer {
    pub from: AccountId,
    pub to: AccountId,
    pub amount: u32,
}

/// An allowance was set.
#[derive(Clone, Debug, PartialEq, Eq)]
pub struct EventApproval {
    pub owner: AccountId,
    pub spender: AccountId,
    pub amount: u32,
}

/// The price oracle was set.
#[derive(Clone, Debug, PartialEq, Eq)]
pub struct EventSetOracle {
    pub oracle: AccountId,
}

/// The oracle supplied the share price.
#[derive(Clone, Debug, PartialEq, Eq)]
pub struct EventOraclePriceFetched {
    pub oracle: AccountId,
    pub price: i128,
}

/// The oracle gave no usable price; the admin price is used.
#[derive(Clone, Debug, PartialEq, Eq)]
pub struct EventOraclePriceFallback {
    pub admin_price: i128,
}

/// A code upgrade was scheduled.
#[derive(Clone, Debug, PartialEq, Eq)]
pub struct EventUpgradeScheduled {
    pub new_wasm_hash: [u8; 32],
    pub execute_after: u64,
    pub proposer: AccountId,
}

/// A scheduled upgrade was executed.
#[derive(Clone, Debug, PartialEq, Eq)]
pub struct EventUpgradeExecuted {
    pub old_version: u32,
    pub new_version: u32,
}

/// A scheduled upgrade was cancelled.
#[derive(Clone, Debug, PartialEq, Eq)]
pub struct EventUpgradeCancelled {
    pub new_wasm_hash: [u8; 32],
}

/// A function category was paused.
#[derive(Clone, Debug, PartialEq, Eq)]
pub struct EventFunctionPaused {
    pub function_id: u32,
}

/// A function category was unpaused.
#[derive(Clone, Debug, PartialEq, Eq)]
pub struct EventFunctionUnpaused {
    pub function_id: u32,
}

/// The circuit breaker was configured.
#[derive(Clone, Debug, PartialEq, Eq)]
pub struct EventCircuitBreakerConfigured {
    pub enabled: bool,
    pub max_price_change_bps: u32,
    pub max_volume_per_block: u32,
}

/// The circuit breaker was triggered.
#[derive(Clone, Debug, PartialEq, Eq)]
pub struct EventCircuitBreakerTriggered {
    pub trigger_reason: u32,
    pub ledger: u64,
}

/// The circuit breaker was reset.
#[derive(Clone, Debug, PartialEq, Eq)]
pub struct EventCircuitBreakerReset {
    pub reset_by: AccountId,
}

/// A state snapshot was recorded.
#[derive(Clone, Debug, PartialEq, Eq)]
pub struct EventStateSnapshotCreated {
    pub snapshot_ledger: u64,
    pub snapshot_id: u32,
}

/// A recovery from a snapshot was recorded.
#[derive(Clone, Debug, PartialEq, Eq)]
pub struct EventStateRecovered {
    pub from_snapshot: u32,
    pub to_ledger: u64,
}

/// Shares were locked for bridging.
#[derive(Clone, Debug, PartialEq, Eq)]
pub struct EventLockForBridge {
    pub user: AccountId,
    pub amount: u32,
    pub total_locked: u32,
}

/// Shares were unlocked from a bridge.
#[derive(Clone, Debug, PartialEq, Eq)]
pub struct EventUnlockFromBridge {
    pub user: AccountId,
    pub amount: u32,
    pub proof: [u8; 32],
}

/// The certificate contract was set.
#[derive(Clone, Debug, PartialEq, Eq)]
pub struct EventNftContractSet {
    pub nft_contract: AccountId,
}

/// Addresses were added (action 0) to or removed (action 1) from the whitelist.
#[derive(Clone, Debug, PartialEq, Eq)]
pub struct EventWhitelistBatch {
    pub count: u32,
    pub action: u32,
}

/// A whitelist expiry was set.
#[derive(Clone, Debug, PartialEq, Eq)]
pub struct EventWhitelistExpirySet {
    pub addr: AccountId,
    pub expiry: u64,
}

/// A whitelist tier was set.
#[derive(Clone, Debug, PartialEq, Eq)]
pub struct EventWhitelistTierSet {
    pub addr: AccountId,
    pub tier: u32,
}

/// The transfer fee was configured.
#[derive(Clone, Debug, PartialEq, Eq)]
pub struct EventTransferFeeConfig {
    pub fee_bps: u32,
    pub collector: AccountId,
}

/// A transfer fee was collected.
#[derive(Clone, Debug, PartialEq, Eq)]
pub struct EventTransferFeeCollected {
    pub from: AccountId,
    pub amount: i128,
    pub fee_collector: AccountId,
}

/// A buyback request was recorded.
#[derive(Clone, Debug, PartialEq, Eq)]
pub struct EventBuybackRequested {
    pub request_id: u64,
    pub seller: AccountId,
    pub amount: u32,
}

/// An address was whitelisted.
#[derive(Clone, Debug, PartialEq, Eq)]
pub struct EventWhitelisted {
    pub addr: AccountId,
}

/// An address was removed from the whitelist.
#[derive(Clone, Debug, PartialEq, Eq)]
pub struct EventWhitelistRemoved {
    pub addr: AccountId,
}

/// The metadata URI was set.
#[derive(Clone, Debug, PartialEq, Eq)]
pub struct EventMetadataUriSet {
    pub uri: Vec<u8>,
}

/// Vested shares were claimed.
#[derive(Clone, Debug, PartialEq, Eq)]
pub struct EventClaimVestedShares {
    pub claimer: AccountId,
    pub amount: u32,
}

/// A batch purchase completed.
#[derive(Clone, Debug, PartialEq, Eq)]
pub struct EventBatchBuyShares {
    pub buyer: AccountId,
    pub total_items: u32,
    pub successful_items: u32,
    pub total_shares: u32,
    pub total_cost: i128,
}

/// One item of a batch purchase failed.
#[derive(Clone, Debug, PartialEq, Eq)]
pub struct EventBatchPurchaseItemFailed {
    pub buyer: AccountId,
    pub index: u32,
    pub shares_requested: u32,
}

/// A timelocked operation was scheduled.
#[derive(Clone, Debug, PartialEq, Eq)]
pub struct EventOperationScheduled {
    pub action: AdminAction,
    pub execute_after: u64,
}

/// A timelocked operation was cancelled.
#[derive(Clone, Debug, PartialEq, Eq)]
pub struct EventOperationCancelled {
    pub action: AdminAction,
}

/// A timelocked operation was executed.
#[derive(Clone, Debug, PartialEq, Eq)]
pub struct EventOperationExecuted {
    pub action: AdminAction,
}

/// The contract's code was replaced.
#[derive(Clone, Debug, PartialEq, Eq)]
pub struct EventContractUpgraded {
    pub new_wasm_hash: [u8; 32],
}

/// An event published by the marketplace.
#[derive(Clone, Debug, PartialEq, Eq)]
pub enum Event {
    BuybackShares(EventBuybackShares),
    AutoBuybackConfig(EventAutoBuybackConfig),
    AddPaymentToken(EventAddPaymentToken),
    RemovePaymentToken(EventRemovePaymentToken),
    OrderPlaced(EventOrderPlaced),
    OrderCancelled(EventOrderCancelled),
    OrderFilled(EventOrderFilled),
    Init(EventInit),
    BuyShares(EventBuyShares),
    Pause(EventPause),
    Unpause(EventUnpause),
    EmergencyWithdraw(EventEmergencyWithdraw),
    SetDividendSchedule(EventSetDividendSchedule),
    ScheduledDividend(EventScheduledDividend),
    DistributeDividends(EventDistributeDividends),
    SetPrice(EventSetPrice),
    SetTotalShares(EventSetTotalShares),
    SetMaxSharesPerUser(EventSetMaxSharesPerUser),
    Transfer(EventTransfer),
    Approval(EventApproval),
    SetOracle(EventSetOracle),
    OraclePriceFetched(EventOraclePriceFetched),
    OraclePriceFallback(EventOraclePriceFallback),
    UpgradeScheduled(EventUpgradeScheduled),
    UpgradeExecuted(EventUpgradeExecuted),
    UpgradeCancelled(EventUpgradeCancelled),
    FunctionPaused(EventFunctionPaused),
    FunctionUnpaused(EventFunctionUnpaused),
    CircuitBreakerConfigured(EventCircuitBreakerConfigured),
    CircuitBreakerTriggered(EventCircuitBreakerTriggered),
    CircuitBreakerReset(EventCircuitBreakerReset),
    StateSnapshotCreated(EventStateSnapshotCreated),
    StateRecovered(EventStateRecovered),
    LockForBridge(EventLockForBridge),
    UnlockFromBridge(EventUnlockFromBridge),
    NftContractSet(EventNftContractSet),
    WhitelistBatch(EventWhitelistBatch),
    WhitelistExpirySet(EventWhitelistExpirySet),
    WhitelistTierSet(EventWhitelistTierSet),
    TransferFeeConfig(EventTransferFeeConfig),
    TransferFeeCollected(EventTransferFeeCollected),
    BuybackRequested(EventBuybackRequested),
    Whitelisted(EventWhitelisted),
    WhitelistRemoved(EventWhitelistRemoved),
    MetadataUriSet(EventMetadataUriSet),
    ClaimVestedShares(EventClaimVestedShares),
    BatchBuyShares(EventBatchBuyShares),
    BatchPurchaseItemFailed(EventBatchPurchaseItemFailed),
    OperationScheduled(EventOperationScheduled),
    OperationCancelled(EventOperationCancelled),
    OperationExecuted(EventOperationExecuted),
    ContractUpgraded(EventContractUpgraded),
}

/// What the host has to do, in order, for a request the marketplace granted.
/// A failure of any of them undoes the whole request.
#[derive(Clone, Debug, PartialEq, Eq)]
pub enum Effect {
    /// The account must have authorized the request.
    RequireAuth(AccountId),
    /// Move `amount` of `token` from account `from` to account `to`.
    Transfer { token: AccountId, from: AccountId, to: AccountId, amount: i128 },
    /// Pay `amount` of `token` from the marketplace contract's own balance to `to`.
    Payout { token: AccountId, to: AccountId, amount: i128 },
    /// Mint `count` share certificates of contract `nft` to `to`.
    MintCertificates { nft: AccountId, to: AccountId, count: u32 },
    /// Replace the contract's code by the code with this hash.
    UpdateContractWasm([u8; 32]),
    /// Publish an event.
    Emit(Event),
}

} // verus!
