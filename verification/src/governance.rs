//! Governance: scheduled upgrades, per-function pauses, the circuit breaker,
//! state snapshots, and admin actions behind a timelock.
use vstd::prelude::*;

use crate::events::{
    Effect, Event, EventEmergencyWithdraw, EventPause, EventUnpause, EventCircuitBreakerConfigured, EventCircuitBreakerReset,
    EventCircuitBreakerTriggered, EventFunctionPaused, EventFunctionUnpaused,
    EventOperationCancelled, EventOperationExecuted, EventOperationScheduled, EventStateRecovered,
    EventStateSnapshotCreated, EventUpgradeCancelled, EventUpgradeExecuted, EventUpgradeScheduled,
};
use crate::market::{MarketView, RwaMarketplace, OPERATION_DELAY};
use crate::types::{
    AccountId, AdminAction, CircuitBreakerConfig, MarketError, StateSnapshot, TimelockError,
    UpgradeConfig,
};

verus! {

/// Highest function category id.
pub const MAX_FUNCTION_ID: u32 = 5;

/// The circuit breaker configuration used when none is set.
pub open spec fn default_circuit_breaker() -> CircuitBreakerConfig {
    CircuitBreakerConfig {
        enabled: false,
        max_price_change_bps: 500,
        max_volume_per_block: 10000,
        armed: false,
    }
}

impl MarketView {
    /// Why an admin-only request with one more check `fails` (refused with
    /// `error`) is refused, if it is.
    pub open spec fn admin_then(self, fails: bool, error: MarketError) -> Option<MarketError> {
        if self.admin is None {
            Some(MarketError::NotInitialized)
        } else if fails {
            Some(error)
        } else {
            None
        }
    }

    /// The critical state values a snapshot taken at `ledger` records: a
    /// missing supply, pool or price reads as 0 and a missing pause state
    /// as paused.
    pub open spec fn snapshot_of(self, ledger: u64) -> StateSnapshot {
        StateSnapshot {
            ledger,
            total_shares: match self.total_shares {
                Some(t) => t,
                None => 0,
            },
            available_shares: match self.available_shares {
                Some(a) => a,
                None => 0,
            },
            price_per_share: match self.price_per_share {
                Some(p) => p,
                None => 0,
            },
            paused: self.paused_now(),
            pause_flags: self.function_pause_flags,
        }
    }

    /// The effects of an admin-only request that emits `event`.
    pub open spec fn admin_effects(self, event: Event) -> Seq<Effect> {
        seq![Effect::RequireAuth(self.admin.unwrap()), Effect::Emit(event)]
    }

    /// The flags with the bit of `id` set.
    pub open spec fn flags_paused(self, id: u32) -> u32 {
        self.function_pause_flags | (1u32 << id)
    }

    /// The flags with the bit of `id` cleared.
    pub open spec fn flags_unpaused(self, id: u32) -> u32 {
        self.function_pause_flags & !(1u32 << id)
    }

    /// Why `execute_upgrade` is refused at `ledger_sequence`, if it is.
    pub open spec fn upgrade_refusal(self, ledger_sequence: u32) -> Option<MarketError> {
        if self.admin is None {
            Some(MarketError::NotInitialized)
        } else if self.pending_upgrade is None {
            Some(MarketError::NoPendingUpgrade)
        } else if ledger_sequence < self.pending_upgrade.unwrap().scheduled_ledger {
            Some(MarketError::UpgradeTimelockNotElapsed)
        } else if self.implementation_version == u32::MAX {
            Some(MarketError::ArithmeticOverflow)
        } else {
            None
        }
    }

    /// Why `execute_operation` of `action` is refused at time `now`, if it is.
    pub open spec fn operation_refusal(self, action: AdminAction, now: u64) -> Option<MarketError> {
        if !self.scheduled_operations.contains_key(action) {
            Some(MarketError::Timelock(TimelockError::NotScheduled))
        } else if now < self.scheduled_operations[action] {
            Some(MarketError::Timelock(TimelockError::TimelockNotExpired))
        } else if self.admin is None {
            Some(MarketError::NotInitialized)
        } else if action is EmergencyWithdraw && self.payment_token is None {
            Some(MarketError::NotInitialized)
        } else {
            None
        }
    }
}

/// Setting one pause bit pauses that category and leaves the others.
pub proof fn lemma_pause_bit(flags: u32, id: u32, other: u32)
    requires
        id < 32,
        other < 32,
    ensures
        (flags | (1u32 << id)) & (1u32 << id) != 0,
        (flags & !(1u32 << id)) & (1u32 << id) == 0,
        other != id ==> ((flags | (1u32 << id)) & (1u32 << other) != 0 <==> flags & (1u32 << other)
            != 0),
        other != id ==> ((flags & !(1u32 << id)) & (1u32 << other) != 0 <==> flags & (1u32
            << other) != 0),
{
    assert((flags | (1u32 << id)) & (1u32 << id) != 0) by (bit_vector)
        requires
            id < 32,
    ;
    assert((flags & !(1u32 << id)) & (1u32 << id) == 0) by (bit_vector)
        requires
            id < 32,
    ;
    assert(other != id ==> ((flags | (1u32 << id)) & (1u32 << other) != 0 <==> flags & (1u32
        << other) != 0)) by (bit_vector)
        requires
            id < 32,
            other < 32,
    ;
    assert(other != id ==> ((flags & !(1u32 << id)) & (1u32 << other) != 0 <==> flags & (1u32
        << other) != 0)) by (bit_vector)
        requires
            id < 32,
            other < 32,
    ;
}

impl RwaMarketplace {
    /// Schedules an upgrade to `new_wasm_hash` that may execute once the
    /// ledger sequence reaches the current one plus the upgrade timelock.
    /// Admin only.
    pub fn schedule_upgrade(&mut self, new_wasm_hash: [u8; 32], ledger_sequence: u32) -> (r: Result<Vec<Effect>, MarketError>)
        ensures
            ({
                let pre = old(self)@;
                let execute_after = ledger_sequence + pre.upgrade_timelock;
                match r {
                    Err(e) => {
                        &&& final(self)@ == pre
                        &&& pre.admin_then(execute_after > u64::MAX, MarketError::ArithmeticOverflow)
                            == Some(e)
                    },
                    Ok(effects) => {
                        &&& pre.admin_then(execute_after > u64::MAX, MarketError::ArithmeticOverflow)
                            is None
                        &&& final(self)@ == (MarketView {
                            pending_upgrade: Some(
                                UpgradeConfig {
                                    new_wasm_hash,
                                    scheduled_ledger: execute_after as u64,
                                    proposer: pre.admin.unwrap(),
                                },
                            ),
                            ..pre
                        })
                        &&& effects@ == pre.admin_effects(
                            Event::UpgradeScheduled(
                                EventUpgradeScheduled {
                                    new_wasm_hash,
                                    execute_after: execute_after as u64,
                                    proposer: pre.admin.unwrap(),
                                },
                            ),
                        )
                    },
                }
            }),
            old(self).shares_conserved() ==> final(self).shares_conserved(),
    {
        let admin = match self.admin {
            Some(a) => a,
            None => {
                return Err(MarketError::NotInitialized);
            },
        };
        let execute_after = match (ledger_sequence as u64).checked_add(self.upgrade_timelock) {
            Some(e) => e,
            None => {
                return Err(MarketError::ArithmeticOverflow);
            },
        };
        self.pending_upgrade = Some(UpgradeConfig { new_wasm_hash, scheduled_ledger: execute_after, proposer: admin });
        let mut effects: Vec<Effect> = Vec::new();
        effects.push(Effect::RequireAuth(admin));
        effects.push(Effect::Emit(Event::UpgradeScheduled(EventUpgradeScheduled {
            new_wasm_hash,
            execute_after,
            proposer: admin,
        })));
        Ok(effects)
    }

    /// Executes the scheduled upgrade once its ledger is reached: the
    /// implementation version goes up by one and the schedule is cleared.
    /// Admin only.
    pub fn execute_upgrade(&mut self, ledger_sequence: u32) -> (r: Result<Vec<Effect>, MarketError>)
        ensures
            ({
                let pre = old(self)@;
                let refusal = pre.upgrade_refusal(ledger_sequence);
                match r {
                    Err(e) => final(self)@ == pre && refusal == Some(e),
                    Ok(effects) => {
                        &&& refusal is None
                        &&& final(self)@ == (MarketView {
                            implementation_version: (pre.implementation_version + 1) as u32,
                            pending_upgrade: None,
                            ..pre
                        })
                        &&& effects@ == pre.admin_effects(
                            Event::UpgradeExecuted(
                                EventUpgradeExecuted {
                                    old_version: pre.implementation_version,
                                    new_version: (pre.implementation_version + 1) as u32,
                                },
                            ),
                        )
                    },
                }
            }),
            old(self).shares_conserved() ==> final(self).shares_conserved(),
    {
        let admin = match self.admin {
            Some(a) => a,
            None => {
                return Err(MarketError::NotInitialized);
            },
        };
        let config = match self.pending_upgrade {
            Some(c) => c,
            None => {
                return Err(MarketError::NoPendingUpgrade);
            },
        };
        if (ledger_sequence as u64) < config.scheduled_ledger {
            return Err(MarketError::UpgradeTimelockNotElapsed);
        }
        let old_version = self.implementation_version;
        if old_version == u32::MAX {
            return Err(MarketError::ArithmeticOverflow);
        }
        let new_version = old_version + 1;
        self.implementation_version = new_version;
        self.pending_upgrade = None;
        let mut effects: Vec<Effect> = Vec::new();
        effects.push(Effect::RequireAuth(admin));
        effects.push(Effect::Emit(Event::UpgradeExecuted(EventUpgradeExecuted { old_version, new_version })));
        Ok(effects)
    }

    /// Cancels the scheduled upgrade. Admin only.
    pub fn cancel_upgrade(&mut self) -> (r: Result<Vec<Effect>, MarketError>)
        ensures
            ({
                let pre = old(self)@;
                match r {
                    Err(e) => final(self)@ == pre && pre.admin_then(
                        pre.pending_upgrade is None,
                        MarketError::NoPendingUpgradeToCancel,
                    ) == Some(e),
                    Ok(effects) => {
                        &&& pre.admin_then(
                            pre.pending_upgrade is None,
                            MarketError::NoPendingUpgradeToCancel,
                        ) is None
                        &&& final(self)@ == (MarketView { pending_upgrade: None, ..pre })
                        &&& effects@ == pre.admin_effects(
                            Event::UpgradeCancelled(
                                EventUpgradeCancelled {
                                    new_wasm_hash: pre.pending_upgrade.unwrap().new_wasm_hash,
                                },
                            ),
                        )
                    },
                }
            }),
            old(self).shares_conserved() ==> final(self).shares_conserved(),
    {
        let admin = match self.admin {
            Some(a) => a,
            None => {
                return Err(MarketError::NotInitialized);
            },
        };
        let config = match self.pending_upgrade {
            Some(c) => c,
            None => {
                return Err(MarketError::NoPendingUpgradeToCancel);
            },
        };
        self.pending_upgrade = None;
        let mut effects: Vec<Effect> = Vec::new();
        effects.push(Effect::RequireAuth(admin));
        effects.push(Effect::Emit(Event::UpgradeCancelled(EventUpgradeCancelled { new_wasm_hash: config.new_wasm_hash })));
        Ok(effects)
    }

    /// Sets the upgrade timelock in ledgers (not zero). Admin only.
    pub fn set_upgrade_timelock(&mut self, timelock: u64) -> (r: Result<Vec<Effect>, MarketError>)
        ensures
            ({
                let pre = old(self)@;
                match r {
                    Err(e) => final(self)@ == pre && pre.admin_then(timelock == 0, MarketError::TimelockZero)
                        == Some(e),
                    Ok(effects) => {
                        &&& pre.admin_then(timelock == 0, MarketError::TimelockZero) is None
                        &&& final(self)@ == (MarketView { upgrade_timelock: timelock, ..pre })
                        &&& effects@ == seq![Effect::RequireAuth(pre.admin.unwrap())]
                    },
                }
            }),
            old(self).shares_conserved() ==> final(self).shares_conserved(),
    {
        let admin = match self.admin {
            Some(a) => a,
            None => {
                return Err(MarketError::NotInitialized);
            },
        };
        if timelock == 0 {
            return Err(MarketError::TimelockZero);
        }
        self.upgrade_timelock = timelock;
        let mut effects: Vec<Effect> = Vec::new();
        effects.push(Effect::RequireAuth(admin));
        Ok(effects)
    }

    /// The implementation version (1 until an upgrade executes).
    pub fn get_implementation_version(&self) -> (r: u32)
        ensures
            r == self@.implementation_version,
    {
        self.implementation_version
    }

    /// Whether an upgrade is scheduled.
    pub fn has_pending_upgrade(&self) -> (r: bool)
        ensures
            r == self@.pending_upgrade is Some,
    {
        self.pending_upgrade.is_some()
    }

    /// Pauses function category `function_id` (0 = purchases, 1 = transfers,
    /// 2 = dividends, 3 = sell orders, 4 = buybacks, 5 = allowance transfers).
    /// Admin only.
    pub fn pause_function(&mut self, function_id: u32) -> (r: Result<Vec<Effect>, MarketError>)
        ensures
            ({
                let pre = old(self)@;
                let refusal = pre.admin_then(function_id > MAX_FUNCTION_ID, MarketError::InvalidFunctionId);
                match r {
                    Err(e) => final(self)@ == pre && refusal == Some(e),
                    Ok(effects) => {
                        &&& refusal is None
                        &&& final(self)@ == (MarketView {
                            function_pause_flags: pre.flags_paused(function_id),
                            ..pre
                        })
                        &&& final(self)@.fn_paused(function_id)
                        &&& forall|other: u32|
                            other < 32 && other != function_id ==> (#[trigger] final(self)@.fn_paused(
                                other,
                            ) <==> pre.fn_paused(other))
                        &&& effects@ == pre.admin_effects(
                            Event::FunctionPaused(EventFunctionPaused { function_id }),
                        )
                    },
                }
            }),
            old(self).shares_conserved() ==> final(self).shares_conserved(),
    {
        let admin = match self.admin {
            Some(a) => a,
            None => {
                return Err(MarketError::NotInitialized);
            },
        };
        if function_id > MAX_FUNCTION_ID {
            return Err(MarketError::InvalidFunctionId);
        }
        let ghost flags = self.function_pause_flags;
        self.function_pause_flags = self.function_pause_flags | (1u32 << function_id);
        proof {
            assert forall|other: u32| other < 32 implies (#[trigger] self@.fn_paused(other)
                == (if other == function_id { true } else { old(self)@.fn_paused(other) })) by {
                lemma_pause_bit(flags, function_id, other);
            }
        }
        let mut effects: Vec<Effect> = Vec::new();
        effects.push(Effect::RequireAuth(admin));
        effects.push(Effect::Emit(Event::FunctionPaused(EventFunctionPaused { function_id })));
        Ok(effects)
    }

    /// Unpauses function category `function_id`. Admin only.
    pub fn unpause_function(&mut self, function_id: u32) -> (r: Result<Vec<Effect>, MarketError>)
        ensures
            ({
                let pre = old(self)@;
                let refusal = pre.admin_then(function_id > MAX_FUNCTION_ID, MarketError::InvalidFunctionId);
                match r {
                    Err(e) => final(self)@ == pre && refusal == Some(e),
                    Ok(effects) => {
                        &&& refusal is None
                        &&& final(self)@ == (MarketView {
                            function_pause_flags: pre.flags_unpaused(function_id),
                            ..pre
                        })
                        &&& !final(self)@.fn_paused(function_id)
                        &&& forall|other: u32|
                            other < 32 && other != function_id ==> (#[trigger] final(self)@.fn_paused(
                                other,
                            ) <==> pre.fn_paused(other))
                        &&& effects@ == pre.admin_effects(
                            Event::FunctionUnpaused(EventFunctionUnpaused { function_id }),
                        )
                    },
                }
            }),
            old(self).shares_conserved() ==> final(self).shares_conserved(),
    {
        let admin = match self.admin {
            Some(a) => a,
            None => {
                return Err(MarketError::NotInitialized);
            },
        };
        if function_id > MAX_FUNCTION_ID {
            return Err(MarketError::InvalidFunctionId);
        }
        let ghost flags = self.function_pause_flags;
        self.function_pause_flags = self.function_pause_flags & !(1u32 << function_id);
        proof {
            assert forall|other: u32| other < 32 implies (#[trigger] self@.fn_paused(other)
                == (if other == function_id { false } else { old(self)@.fn_paused(other) })) by {
                lemma_pause_bit(flags, function_id, other);
            }
        }
        let mut effects: Vec<Effect> = Vec::new();
        effects.push(Effect::RequireAuth(admin));
        effects.push(Effect::Emit(Event::FunctionUnpaused(EventFunctionUnpaused { function_id })));
        Ok(effects)
    }

    /// Whether function category `function_id` is paused.
    pub fn is_function_paused(&self, function_id: u32) -> (r: Result<bool, MarketError>)
        ensures
            match r {
                Err(e) => function_id > MAX_FUNCTION_ID && e == MarketError::InvalidFunctionId,
                Ok(p) => function_id <= MAX_FUNCTION_ID && p == self@.fn_paused(function_id),
            },
    {
        if function_id > MAX_FUNCTION_ID {
            return Err(MarketError::InvalidFunctionId);
        }
        Ok(self.fn_paused(function_id))
    }

    /// All pause flags as a bitmask.
    pub fn get_pause_flags(&self) -> (r: u32)
        ensures
            r == self@.function_pause_flags,
    {
        self.function_pause_flags
    }

    /// Configures the circuit breaker; it is armed exactly when enabled.
    /// Admin only.
    pub fn configure_circuit_breaker(&mut self, enabled: bool, max_price_change_bps: u32, max_volume_per_block: u32) -> (r: Result<Vec<Effect>, MarketError>)
        ensures
            ({
                let pre = old(self)@;
                match r {
                    Err(e) => final(self)@ == pre && pre.admin is None && e == MarketError::NotInitialized,
                    Ok(effects) => {
                        &&& pre.admin is Some
                        &&& final(self)@ == (MarketView {
                            circuit_breaker: Some(
                                CircuitBreakerConfig {
                                    enabled,
                                    max_price_change_bps,
                                    max_volume_per_block,
                                    armed: enabled,
                                },
                            ),
                            ..pre
                        })
                        &&& effects@ == pre.admin_effects(
                            Event::CircuitBreakerConfigured(
                                EventCircuitBreakerConfigured { enabled, max_price_change_bps, max_volume_per_block },
                            ),
                        )
                    },
                }
            }),
            old(self).shares_conserved() ==> final(self).shares_conserved(),
    {
        let admin = match self.admin {
            Some(a) => a,
            None => {
                return Err(MarketError::NotInitialized);
            },
        };
        self.circuit_breaker = Some(CircuitBreakerConfig { enabled, max_price_change_bps, max_volume_per_block, armed: enabled });
        let mut effects: Vec<Effect> = Vec::new();
        effects.push(Effect::RequireAuth(admin));
        effects.push(Effect::Emit(Event::CircuitBreakerConfigured(EventCircuitBreakerConfigured {
            enabled,
            max_price_change_bps,
            max_volume_per_block,
        })));
        Ok(effects)
    }

    /// Trips the enabled circuit breaker, halting purchases, transfers and
    /// sell orders, and counts the trip. Admin only.
    pub fn trigger_circuit_breaker(&mut self, trigger_reason: u32, ledger_sequence: u32) -> (r: Result<Vec<Effect>, MarketError>)
        ensures
            ({
                let pre = old(self)@;
                let config = match pre.circuit_breaker {
                    Some(c) => c,
                    None => default_circuit_breaker(),
                };
                let refusal = if pre.admin is None {
                    Some(MarketError::NotInitialized)
                } else if !config.enabled {
                    Some(MarketError::CircuitBreakerNotEnabled)
                } else if pre.circuit_breaker_trigger_count == u32::MAX {
                    Some(MarketError::ArithmeticOverflow)
                } else {
                    None
                };
                match r {
                    Err(e) => final(self)@ == pre && refusal == Some(e),
                    Ok(effects) => {
                        &&& refusal is None
                        &&& final(self)@ == (MarketView {
                            circuit_breaker_triggered: true,
                            circuit_breaker_trigger_count: (pre.circuit_breaker_trigger_count + 1) as u32,
                            ..pre
                        })
                        &&& effects@ == pre.admin_effects(
                            Event::CircuitBreakerTriggered(
                                EventCircuitBreakerTriggered { trigger_reason, ledger: ledger_sequence as u64 },
                            ),
                        )
                    },
                }
            }),
            old(self).shares_conserved() ==> final(self).shares_conserved(),
    {
        let admin = match self.admin {
            Some(a) => a,
            None => {
                return Err(MarketError::NotInitialized);
            },
        };
        let enabled = match self.circuit_breaker {
            Some(c) => c.enabled,
            None => false,
        };
        if !enabled {
            return Err(MarketError::CircuitBreakerNotEnabled);
        }
        if self.circuit_breaker_trigger_count == u32::MAX {
            return Err(MarketError::ArithmeticOverflow);
        }
        self.circuit_breaker_triggered = true;
        self.circuit_breaker_trigger_count = self.circuit_breaker_trigger_count + 1;
        let mut effects: Vec<Effect> = Vec::new();
        effects.push(Effect::RequireAuth(admin));
        effects.push(Effect::Emit(Event::CircuitBreakerTriggered(EventCircuitBreakerTriggered {
            trigger_reason,
            ledger: ledger_sequence as u64,
        })));
        Ok(effects)
    }

    /// Resets the circuit breaker. Admin only.
    pub fn reset_circuit_breaker(&mut self) -> (r: Result<Vec<Effect>, MarketError>)
        ensures
            ({
                let pre = old(self)@;
                match r {
                    Err(e) => final(self)@ == pre && pre.admin is None && e == MarketError::NotInitialized,
                    Ok(effects) => {
                        &&& pre.admin is Some
                        &&& final(self)@ == (MarketView { circuit_breaker_triggered: false, ..pre })
                        &&& effects@ == pre.admin_effects(
                            Event::CircuitBreakerReset(EventCircuitBreakerReset { reset_by: pre.admin.unwrap() }),
                        )
                    },
                }
            }),
            old(self).shares_conserved() ==> final(self).shares_conserved(),
    {
        let admin = match self.admin {
            Some(a) => a,
            None => {
                return Err(MarketError::NotInitialized);
            },
        };
        self.circuit_breaker_triggered = false;
        let mut effects: Vec<Effect> = Vec::new();
        effects.push(Effect::RequireAuth(admin));
        effects.push(Effect::Emit(Event::CircuitBreakerReset(EventCircuitBreakerReset { reset_by: admin })));
        Ok(effects)
    }

    /// Whether the circuit breaker has tripped.
    pub fn is_circuit_breaker_triggered(&self) -> (r: bool)
        ensures
            r == self@.circuit_breaker_triggered,
    {
        self.circuit_breaker_triggered
    }

    /// How often the circuit breaker has tripped.
    pub fn get_cb_trigger_count(&self) -> (r: u32)
        ensures
            r == self@.circuit_breaker_trigger_count,
    {
        self.circuit_breaker_trigger_count
    }

    /// Enables or disables state snapshots. Admin only.
    pub fn set_recovery_enabled(&mut self, enabled: bool) -> (r: Result<Vec<Effect>, MarketError>)
        ensures
            ({
                let pre = old(self)@;
                match r {
                    Err(e) => final(self)@ == pre && pre.admin is None && e == MarketError::NotInitialized,
                    Ok(effects) => {
                        &&& pre.admin is Some
                        &&& final(self)@ == (MarketView { recovery_enabled: enabled, ..pre })
                        &&& effects@ == seq![Effect::RequireAuth(pre.admin.unwrap())]
                    },
                }
            }),
            old(self).shares_conserved() ==> final(self).shares_conserved(),
    {
        let admin = match self.admin {
            Some(a) => a,
            None => {
                return Err(MarketError::NotInitialized);
            },
        };
        self.recovery_enabled = enabled;
        let mut effects: Vec<Effect> = Vec::new();
        effects.push(Effect::RequireAuth(admin));
        Ok(effects)
    }

    /// Records a snapshot of the critical state values (supply, pool, price,
    /// pause state and pause flags) at the current ledger under a new id (one
    /// more than the last), and returns the id. Admin only, and only while
    /// snapshots are enabled.
    pub fn create_state_snapshot(&mut self, ledger_sequence: u32) -> (r: Result<(u32, Vec<Effect>), MarketError>)
        ensures
            ({
                let pre = old(self)@;
                let refusal = if pre.admin is None {
                    Some(MarketError::NotInitialized)
                } else if !pre.recovery_enabled {
                    Some(MarketError::RecoveryNotEnabled)
                } else if pre.snapshot_count == u32::MAX {
                    Some(MarketError::ArithmeticOverflow)
                } else {
                    None
                };
                match r {
                    Err(e) => final(self)@ == pre && refusal == Some(e),
                    Ok((snapshot_id, effects)) => {
                        &&& refusal is None
                        &&& snapshot_id == pre.snapshot_count + 1
                        &&& final(self)@ == (MarketView {
                            snapshot_count: snapshot_id,
                            last_snapshot_ledger: ledger_sequence as u64,
                            snapshots: pre.snapshots.insert(
                                snapshot_id,
                                pre.snapshot_of(ledger_sequence as u64),
                            ),
                            ..pre
                        })
                        &&& effects@ == pre.admin_effects(
                            Event::StateSnapshotCreated(
                                EventStateSnapshotCreated { snapshot_ledger: ledger_sequence as u64, snapshot_id },
                            ),
                        )
                    },
                }
            }),
            old(self).shares_conserved() ==> final(self).shares_conserved(),
    {
        let admin = match self.admin {
            Some(a) => a,
            None => {
                return Err(MarketError::NotInitialized);
            },
        };
        if !self.recovery_enabled {
            return Err(MarketError::RecoveryNotEnabled);
        }
        if self.snapshot_count == u32::MAX {
            return Err(MarketError::ArithmeticOverflow);
        }
        let current_ledger = ledger_sequence as u64;
        let snapshot_id = self.snapshot_count + 1;
        let snapshot = StateSnapshot {
            ledger: current_ledger,
            total_shares: match self.total_shares {
                Some(t) => t,
                None => 0,
            },
            available_shares: match self.available_shares {
                Some(a) => a,
                None => 0,
            },
            price_per_share: match self.price_per_share {
                Some(p) => p,
                None => 0,
            },
            paused: match self.paused {
                Some(p) => p,
                None => true,
            },
            pause_flags: self.function_pause_flags,
        };
        self.snapshots.insert(snapshot_id, snapshot);
        self.snapshot_count = snapshot_id;
        self.last_snapshot_ledger = current_ledger;
        let mut effects: Vec<Effect> = Vec::new();
        effects.push(Effect::RequireAuth(admin));
        effects.push(Effect::Emit(Event::StateSnapshotCreated(EventStateSnapshotCreated {
            snapshot_ledger: current_ledger,
            snapshot_id,
        })));
        Ok((snapshot_id, effects))
    }

    /// Checks that snapshot `snapshot_id` was taken and reports a recovery
    /// from it; the state itself is left as it is. Admin only.
    pub fn recover_from_snapshot(&self, snapshot_id: u32, ledger_sequence: u32) -> (r: Result<Vec<Effect>, MarketError>)
        ensures
            ({
                let pre = self@;
                let refusal = pre.admin_then(
                    snapshot_id == 0 || snapshot_id > pre.snapshot_count,
                    MarketError::InvalidSnapshotId,
                );
                match r {
                    Err(e) => refusal == Some(e),
                    Ok(effects) => {
                        &&& refusal is None
                        &&& effects@ == pre.admin_effects(
                            Event::StateRecovered(
                                EventStateRecovered { from_snapshot: snapshot_id, to_ledger: ledger_sequence as u64 },
                            ),
                        )
                    },
                }
            }),
    {
        let admin = match self.admin {
            Some(a) => a,
            None => {
                return Err(MarketError::NotInitialized);
            },
        };
        if snapshot_id == 0 || snapshot_id > self.snapshot_count {
            return Err(MarketError::InvalidSnapshotId);
        }
        let mut effects: Vec<Effect> = Vec::new();
        effects.push(Effect::RequireAuth(admin));
        effects.push(Effect::Emit(Event::StateRecovered(EventStateRecovered {
            from_snapshot: snapshot_id,
            to_ledger: ledger_sequence as u64,
        })));
        Ok(effects)
    }

    /// The values recorded by snapshot `snapshot_id`, if it was taken.
    pub fn get_snapshot(&self, snapshot_id: u32) -> (r: Option<StateSnapshot>)
        ensures
            r == (if self@.snapshots.contains_key(snapshot_id) {
                Some(self@.snapshots[snapshot_id])
            } else {
                None
            }),
    {
        match self.snapshots.get(&snapshot_id) {
            Some(s) => Some(*s),
            None => None,
        }
    }

    /// The number of snapshots and the ledger of the last one.
    pub fn get_last_snapshot(&self) -> (r: (u32, u64))
        ensures
            r == (self@.snapshot_count, self@.last_snapshot_ledger),
    {
        (self.snapshot_count, self.last_snapshot_ledger)
    }

    /// Schedules `action` to run 48 hours from `now`; `admin` must authorize.
    pub fn schedule_operation(&mut self, admin: AccountId, action: AdminAction, now: u64) -> (r: Result<Vec<Effect>, MarketError>)
        ensures
            ({
                let pre = old(self)@;
                let refusal = if pre.scheduled_operations.contains_key(action) {
                    Some(MarketError::Timelock(TimelockError::AlreadyScheduled))
                } else if now + OPERATION_DELAY > u64::MAX {
                    Some(MarketError::ArithmeticOverflow)
                } else {
                    None
                };
                match r {
                    Err(e) => final(self)@ == pre && refusal == Some(e),
                    Ok(effects) => {
                        &&& refusal is None
                        &&& final(self)@ == (MarketView {
                            scheduled_operations: pre.scheduled_operations.insert(
                                action,
                                (now + OPERATION_DELAY) as u64,
                            ),
                            ..pre
                        })
                        &&& effects@ == seq![
                            Effect::RequireAuth(admin),
                            Effect::Emit(
                                Event::OperationScheduled(
                                    EventOperationScheduled {
                                        action,
                                        execute_after: (now + OPERATION_DELAY) as u64,
                                    },
                                ),
                            ),
                        ]
                    },
                }
            }),
            old(self).shares_conserved() ==> final(self).shares_conserved(),
    {
        if self.scheduled_operations.contains_key(&action) {
            return Err(MarketError::Timelock(TimelockError::AlreadyScheduled));
        }
        let execute_after = match now.checked_add(OPERATION_DELAY) {
            Some(e) => e,
            None => {
                return Err(MarketError::ArithmeticOverflow);
            },
        };
        self.scheduled_operations.insert(action, execute_after);
        let mut effects: Vec<Effect> = Vec::new();
        effects.push(Effect::RequireAuth(admin));
        effects.push(Effect::Emit(Event::OperationScheduled(EventOperationScheduled { action, execute_after })));
        Ok(effects)
    }

    /// Cancels the scheduled `action`; `admin` must authorize.
    pub fn cancel_operation(&mut self, admin: AccountId, action: AdminAction) -> (r: Result<Vec<Effect>, MarketError>)
        ensures
            ({
                let pre = old(self)@;
                match r {
                    Err(e) => {
                        &&& final(self)@ == pre
                        &&& !pre.scheduled_operations.contains_key(action)
                        &&& e == MarketError::Timelock(TimelockError::NotScheduled)
                    },
                    Ok(effects) => {
                        &&& pre.scheduled_operations.contains_key(action)
                        &&& final(self)@ == (MarketView {
                            scheduled_operations: pre.scheduled_operations.remove(action),
                            ..pre
                        })
                        &&& effects@ == seq![
                            Effect::RequireAuth(admin),
                            Effect::Emit(Event::OperationCancelled(EventOperationCancelled { action })),
                        ]
                    },
                }
            }),
            old(self).shares_conserved() ==> final(self).shares_conserved(),
    {
        if !self.scheduled_operations.contains_key(&action) {
            return Err(MarketError::Timelock(TimelockError::NotScheduled));
        }
        self.scheduled_operations.remove(&action);
        let mut effects: Vec<Effect> = Vec::new();
        effects.push(Effect::RequireAuth(admin));
        effects.push(Effect::Emit(Event::OperationCancelled(EventOperationCancelled { action })));
        Ok(effects)
    }

    /// Runs the scheduled `action` once its delay has passed, and clears its
    /// schedule; `admin` must authorize, and the action itself is admin only.
    pub fn execute_operation(&mut self, admin: AccountId, action: AdminAction, now: u64) -> (r: Result<Vec<Effect>, MarketError>)
        ensures
            ({
                let pre = old(self)@;
                let refusal = pre.operation_refusal(action, now);
                let after = MarketView {
                    scheduled_operations: pre.scheduled_operations.remove(action),
                    ..pre
                };
                let stored_admin = pre.admin.unwrap();
                match r {
                    Err(e) => final(self)@ == pre && refusal == Some(e),
                    Ok(effects) => {
                        &&& refusal is None
                        &&& match action {
                            AdminAction::Pause => {
                                &&& final(self)@ == (MarketView { paused: Some(true), ..after })
                                &&& effects@ == seq![
                                    Effect::RequireAuth(admin),
                                    Effect::RequireAuth(stored_admin),
                                    Effect::Emit(Event::Pause(EventPause {  })),
                                    Effect::Emit(Event::OperationExecuted(EventOperationExecuted { action })),
                                ]
                            },
                            AdminAction::Unpause => {
                                &&& final(self)@ == (MarketView { paused: Some(false), ..after })
                                &&& effects@ == seq![
                                    Effect::RequireAuth(admin),
                                    Effect::RequireAuth(stored_admin),
                                    Effect::Emit(Event::Unpause(EventUnpause {  })),
                                    Effect::Emit(Event::OperationExecuted(EventOperationExecuted { action })),
                                ]
                            },
                            AdminAction::EmergencyWithdraw(to, amount) => {
                                &&& final(self)@ == after
                                &&& effects@ == seq![
                                    Effect::RequireAuth(admin),
                                    Effect::RequireAuth(stored_admin),
                                    Effect::Payout { token: pre.payment_token.unwrap(), to, amount },
                                    Effect::Emit(Event::EmergencyWithdraw(EventEmergencyWithdraw { to, amount })),
                                    Effect::Emit(Event::OperationExecuted(EventOperationExecuted { action })),
                                ]
                            },
                        }
                    },
                }
            }),
            old(self).shares_conserved() ==> final(self).shares_conserved(),
    {
        let execute_after = match self.scheduled_operations.get(&action) {
            Some(t) => *t,
            None => {
                return Err(MarketError::Timelock(TimelockError::NotScheduled));
            },
        };
        if now < execute_after {
            return Err(MarketError::Timelock(TimelockError::TimelockNotExpired));
        }
        let inner = match action {
            AdminAction::Pause => self.pause(),
            AdminAction::Unpause => self.unpause(),
            AdminAction::EmergencyWithdraw(to, amount) => self.emergency_withdraw(to, amount),
        };
        let mut inner_effects = match inner {
            Ok(e) => e,
            Err(e) => {
                return Err(e);
            },
        };
        self.scheduled_operations.remove(&action);
        let mut effects: Vec<Effect> = Vec::new();
        effects.push(Effect::RequireAuth(admin));
        effects.append(&mut inner_effects);
        effects.push(Effect::Emit(Event::OperationExecuted(EventOperationExecuted { action })));
        Ok(effects)
    }
}

} // verus!
