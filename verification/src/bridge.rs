//! Shares locked for bridging to another chain and unlocked on a proof.
use vstd::prelude::*;

use crate::arith::checked_sub_u32;
use crate::events::{Effect, Event, EventLockForBridge, EventUnlockFromBridge};
use crate::market::{MarketView, RwaMarketplace};
use crate::table::KeyedTable;
use crate::types::{AccountId, MarketError};

verus! {

/// Whether every byte of a proof is zero (the invalid proof).
pub open spec fn all_zero(proof: [u8; 32]) -> bool {
    forall|i: int| 0 <= i < 32 ==> #[trigger] proof@[i] == 0
}

impl MarketView {
    /// The state after `amount` liquid shares of `user` are locked.
    pub open spec fn after_lock(self, user: AccountId, amount: u32) -> MarketView {
        MarketView {
            balances: self.balances.insert(user, (self.balance(user) - amount) as u32),
            bridge_locked: self.bridge_locked.insert(user, (self.locked_for_bridge(user) + amount) as u32),
            ..self
        }
    }

    /// The state after `amount` locked shares of `user` are unlocked.
    pub open spec fn after_unlock(self, user: AccountId, amount: u32) -> MarketView {
        MarketView {
            bridge_locked: self.bridge_locked.insert(user, (self.locked_for_bridge(user) - amount) as u32),
            balances: self.balances.insert(user, (self.balance(user) + amount) as u32),
            ..self
        }
    }

    /// Why `lock_for_bridge` is refused, if it is.
    pub open spec fn lock_refusal(self, user: AccountId, amount: u32) -> Option<MarketError> {
        if amount == 0 {
            Some(MarketError::BridgeLockAmountZero)
        } else if amount > self.balance(user) {
            Some(MarketError::InsufficientLiquidToLock)
        } else if self.locked_for_bridge(user) + amount > u32::MAX {
            Some(MarketError::ArithmeticOverflow)
        } else {
            None
        }
    }

    /// Why `unlock_from_bridge` is refused, if it is.
    pub open spec fn unlock_refusal(self, user: AccountId, amount: u32, proof: [u8; 32]) -> Option<
        MarketError,
    > {
        if amount == 0 {
            Some(MarketError::BridgeUnlockAmountZero)
        } else if all_zero(proof) {
            Some(MarketError::ZeroBridgeProof)
        } else if amount > self.locked_for_bridge(user) {
            Some(MarketError::InsufficientLockedToUnlock)
        } else if self.balance(user) + amount > u32::MAX {
            Some(MarketError::ArithmeticOverflow)
        } else {
            None
        }
    }
}

fn is_zero_proof(proof: &[u8; 32]) -> (r: bool)
    ensures
        r == all_zero(*proof),
{
    let mut i: usize = 0;
    while i < 32
        invariant
            i <= 32,
            forall|j: int| 0 <= j < i ==> proof@[j] == 0,
        decreases 32 - i,
    {
        if proof[i] != 0 {
            return false;
        }
        i = i + 1;
    }
    true
}

impl RwaMarketplace {
    /// Locks `amount` liquid shares of `user` for bridging.
    pub fn lock_for_bridge(&mut self, user: AccountId, amount: u32) -> (r: Result<Vec<Effect>, MarketError>)
        ensures
            match r {
                Err(e) => {
                    &&& old(self)@.lock_refusal(user, amount) == Some(e)
                    &&& final(self)@ == old(self)@
                },
                Ok(effects) => {
                    let pre = old(self)@;
                    let total_locked = (pre.locked_for_bridge(user) + amount) as u32;
                    &&& pre.lock_refusal(user, amount) is None
                    &&& final(self)@ == pre.after_lock(user, amount)
                    &&& effects@ == seq![
                        Effect::RequireAuth(user),
                        Effect::Emit(
                            Event::LockForBridge(EventLockForBridge { user, amount, total_locked }),
                        ),
                    ]
                },
            },
            old(self).shares_conserved() ==> final(self).shares_conserved(),
    {
        if amount == 0 {
            return Err(MarketError::BridgeLockAmountZero);
        }
        let balance = self.balance_of(user);
        if amount > balance {
            return Err(MarketError::InsufficientLiquidToLock);
        }
        let prev_locked = self.locked_of(user);
        let total_locked = match prev_locked.checked_add(amount) {
            Some(t) => t,
            None => {
                return Err(MarketError::ArithmeticOverflow);
            },
        };
        let ghost pre = *self;
        self.balances.insert(user, checked_sub_u32(balance, amount));
        self.bridge_locked.insert(user, total_locked);
        proof {
            KeyedTable::<AccountId, u32>::lemma_insert_weight(pre.balances, self.balances, user, (balance - amount) as u32);
            KeyedTable::<AccountId, u32>::lemma_insert_weight(pre.bridge_locked, self.bridge_locked, user, total_locked);
        }
        let mut effects: Vec<Effect> = Vec::new();
        effects.push(Effect::RequireAuth(user));
        effects.push(Effect::Emit(Event::LockForBridge(EventLockForBridge { user, amount, total_locked })));
        Ok(effects)
    }

    /// Unlocks `amount` bridged shares of `user` back into its liquid
    /// balance, on a proof that is not all zeros.
    pub fn unlock_from_bridge(&mut self, user: AccountId, amount: u32, proof: [u8; 32]) -> (r: Result<Vec<Effect>, MarketError>)
        ensures
            match r {
                Err(e) => {
                    &&& old(self)@.unlock_refusal(user, amount, proof) == Some(e)
                    &&& final(self)@ == old(self)@
                },
                Ok(effects) => {
                    let pre = old(self)@;
                    &&& pre.unlock_refusal(user, amount, proof) is None
                    &&& final(self)@ == pre.after_unlock(user, amount)
                    &&& effects@ == seq![
                        Effect::RequireAuth(user),
                        Effect::Emit(
                            Event::UnlockFromBridge(EventUnlockFromBridge { user, amount, proof }),
                        ),
                    ]
                },
            },
            old(self).shares_conserved() ==> final(self).shares_conserved(),
    {
        if amount == 0 {
            return Err(MarketError::BridgeUnlockAmountZero);
        }
        if is_zero_proof(&proof) {
            return Err(MarketError::ZeroBridgeProof);
        }
        let locked = self.locked_of(user);
        if amount > locked {
            return Err(MarketError::InsufficientLockedToUnlock);
        }
        let balance = self.balance_of(user);
        let new_balance = match balance.checked_add(amount) {
            Some(b) => b,
            None => {
                return Err(MarketError::ArithmeticOverflow);
            },
        };
        let ghost pre = *self;
        self.bridge_locked.insert(user, locked - amount);
        self.balances.insert(user, new_balance);
        proof {
            KeyedTable::<AccountId, u32>::lemma_insert_weight(pre.bridge_locked, self.bridge_locked, user, (locked - amount) as u32);
            KeyedTable::<AccountId, u32>::lemma_insert_weight(pre.balances, self.balances, user, new_balance);
        }
        let mut effects: Vec<Effect> = Vec::new();
        effects.push(Effect::RequireAuth(user));
        effects.push(Effect::Emit(Event::UnlockFromBridge(EventUnlockFromBridge { user, amount, proof })));
        Ok(effects)
    }

    /// Shares of `user` locked for bridging.
    pub fn get_bridge_locked(&self, user: AccountId) -> (r: u32)
        ensures
            r == self@.locked_for_bridge(user),
    {
        self.locked_of(user)
    }
}

} // verus!
