//! Vested purchases: shares bought into a vesting schedule and claimed as
//! they unlock.
use vstd::prelude::*;

use crate::events::{Effect, Event, EventBuyShares, EventClaimVestedShares};
use crate::laws::lemma_claimable_is_claimed;
use crate::market::{lemma_unclaimed_total_nonneg, unclaimed, unclaimed_total, MarketView, RwaMarketplace};
use crate::table::KeyedTable;
use crate::types::{AccountId, MarketError, VestingSchedule};

verus! {

/// Shares of a schedule that have unlocked at `timestamp`: none before the
/// cliff, all at the end (or when the schedule has no time after its cliff),
/// and in between the part of the time after the cliff that has passed,
/// rounded down. Start plus cliff and start plus duration saturate.
pub open spec fn vested_amount(s: VestingSchedule, timestamp: u64) -> u32 {
    let cliff_time = s.start.saturating_add(s.cliff);
    let vesting_end = s.start.saturating_add(s.duration);
    if timestamp < cliff_time {
        0
    } else if timestamp >= vesting_end || s.duration <= s.cliff {
        s.total_amount
    } else {
        ((s.total_amount * (timestamp - cliff_time)) / ((s.duration - s.cliff) as int)) as u32
    }
}

/// Shares of a schedule that can be claimed at `timestamp`.
pub open spec fn claimable(s: VestingSchedule, timestamp: u64) -> u32 {
    vested_amount(s, timestamp).saturating_sub(s.claimed_amount)
}

/// Sum of the claimable shares of a list of schedules, saturating.
pub open spec fn claimable_total(s: Seq<VestingSchedule>, timestamp: u64) -> u32
    decreases s.len(),
{
    if s.len() == 0 {
        0
    } else {
        claimable_total(s.drop_last(), timestamp).saturating_add(claimable(s.last(), timestamp))
    }
}

/// Sum of the unclaimed shares of a list of schedules, saturating.
pub open spec fn locked_total(s: Seq<VestingSchedule>) -> u32
    decreases s.len(),
{
    if s.len() == 0 {
        0
    } else {
        locked_total(s.drop_last()).saturating_add(
            s.last().total_amount.saturating_sub(s.last().claimed_amount),
        )
    }
}

/// The result of a claim over a prefix of the schedules: the shares claimed
/// and the schedules that remain (fully claimed ones are dropped).
pub struct ClaimProgress {
    pub total: u32,
    pub kept: Seq<VestingSchedule>,
}

pub open spec fn claim_run(s: Seq<VestingSchedule>, now: u64) -> ClaimProgress
    decreases s.len(),
{
    if s.len() == 0 {
        ClaimProgress { total: 0, kept: Seq::empty() }
    } else {
        let p = claim_run(s.drop_last(), now);
        let sched = s.last();
        let available = claimable(sched, now);
        if available > 0 {
            let updated = VestingSchedule {
                claimed_amount: sched.claimed_amount.saturating_add(available),
                ..sched
            };
            ClaimProgress {
                total: p.total.saturating_add(available),
                kept: if updated.claimed_amount < updated.total_amount {
                    p.kept.push(updated)
                } else {
                    p.kept
                },
            }
        } else {
            ClaimProgress { total: p.total, kept: p.kept.push(sched) }
        }
    }
}

pub proof fn lemma_vested_le_total(s: VestingSchedule, t: u64)
    ensures
        vested_amount(s, t) <= s.total_amount,
{
    let cliff_time = s.start.saturating_add(s.cliff);
    let vesting_end = s.start.saturating_add(s.duration);
    if t >= cliff_time && !(t >= vesting_end || s.duration <= s.cliff) {
        let vd = t - cliff_time;
        let tvd = s.duration - s.cliff;
        assert(vd < tvd);
        let total = s.total_amount as int;
        assert((total * vd) / tvd <= total) by (nonlinear_arith)
            requires
                0 <= vd < tvd,
                total >= 0,
        {
            assert(total * vd <= total * tvd);
            assert((total * vd) / tvd <= (total * tvd) / tvd);
        }
    }
}

/// A claim moves shares from the schedules to the claimer one for one, and
/// keeps every schedule within its total.
pub proof fn lemma_claim_run_moves_shares(s: Seq<VestingSchedule>, now: u64)
    requires
        forall|i: int| 0 <= i < s.len() ==> #[trigger] s[i].claimed_amount <= s[i].total_amount,
        unclaimed_total(s) <= u32::MAX,
    ensures
        ({
            let p = claim_run(s, now);
            &&& p.total + unclaimed_total(p.kept) == unclaimed_total(s)
            &&& forall|i: int|
                0 <= i < p.kept.len() ==> #[trigger] p.kept[i].claimed_amount
                    <= p.kept[i].total_amount
        }),
    decreases s.len(),
{
    if s.len() > 0 {
        let init = s.drop_last();
        assert forall|i: int| 0 <= i < init.len() implies #[trigger] init[i].claimed_amount
            <= init[i].total_amount by {
            assert(init[i] == s[i]);
        }
        lemma_unclaimed_total_nonneg(init);
        lemma_claim_run_moves_shares(init, now);
        let p = claim_run(init, now);
        let sched = s.last();
        assert(sched == s[s.len() - 1]);
        lemma_vested_le_total(sched, now);
        lemma_unclaimed_total_nonneg(p.kept);
        let available = claimable(sched, now);
        if available > 0 {
            let updated = VestingSchedule {
                claimed_amount: sched.claimed_amount.saturating_add(available),
                ..sched
            };
            assert(p.kept.push(updated).drop_last() =~= p.kept);
        } else {
            assert(p.kept.push(sched).drop_last() =~= p.kept);
        }
    }
}

impl MarketView {
    /// Why `buy_vested_shares` is refused, if it is.
    pub open spec fn vested_buy_refusal(
        self,
        shares: u32,
        duration: u64,
        payment_token: AccountId,
        oracle_reply: Option<i128>,
    ) -> Option<MarketError> {
        if self.paused == Some(true) {
            Some(MarketError::MarketplacePaused)
        } else if shares == 0 {
            Some(MarketError::ZeroSharePurchase)
        } else if duration == 0 {
            Some(MarketError::VestingDurationZero)
        } else if self.available_shares is None {
            Some(MarketError::NotInitialized)
        } else if shares > self.available_shares.unwrap() {
            Some(MarketError::NotEnoughSharesAvailable)
        } else if !self.accepts(payment_token) {
            Some(MarketError::PaymentTokenNotAccepted)
        } else if self.price_per_share is None {
            Some(MarketError::NotInitialized)
        } else if !(i128::MIN <= self.price_from(oracle_reply).0 * shares <= i128::MAX) {
            Some(MarketError::ArithmeticOverflow)
        } else if self.admin is None {
            Some(MarketError::NotInitialized)
        } else {
            None
        }
    }
}

impl RwaMarketplace {
    /// Shares of `schedule` that have unlocked at `timestamp`.
    pub fn compute_vested_amount(schedule: &VestingSchedule, timestamp: u64) -> (r: u32)
        ensures
            r == vested_amount(*schedule, timestamp),
            r <= schedule.total_amount,
    {
        proof {
            lemma_vested_le_total(*schedule, timestamp);
        }
        let start = schedule.start;
        let cliff_time = start.saturating_add(schedule.cliff);
        let vesting_end = start.saturating_add(schedule.duration);
        if timestamp < cliff_time {
            return 0;
        }
        if timestamp >= vesting_end || schedule.duration <= schedule.cliff {
            return schedule.total_amount;
        }
        let vested_duration = timestamp - cliff_time;
        let total_vesting_duration = schedule.duration - schedule.cliff;
        let total = schedule.total_amount as u128;
        let elapsed = vested_duration as u128;
        proof {
            assert(total * elapsed <= 0xffff_ffffu128 * 0xffff_ffff_ffff_ffffu128) by (nonlinear_arith)
                requires
                    total <= 0xffff_ffffu128,
                    elapsed <= 0xffff_ffff_ffff_ffffu128,
            ;
        }
        let vested = (total * elapsed) / (total_vesting_duration as u128);
        vested as u32
    }

    /// The vesting schedules of `owner`.
    pub fn get_vesting_schedules(&self, owner: AccountId) -> (r: Vec<VestingSchedule>)
        ensures
            r@ == self@.schedules(owner),
    {
        match self.vesting.get(&owner) {
            Some(v) => {
                let mut out: Vec<VestingSchedule> = Vec::new();
                let mut i: usize = 0;
                while i < v.len()
                    invariant
                        i <= v@.len(),
                        out@ == v@.take(i as int),
                    decreases v@.len() - i,
                {
                    out.push(v[i]);
                    proof {
                        assert(v@.take(i + 1) =~= v@.take(i as int).push(v@[i as int]));
                    }
                    i = i + 1;
                }
                proof {
                    assert(v@.take(v@.len() as int) =~= v@);
                }
                out
            },
            None => Vec::new(),
        }
    }

    /// Buys `shares` shares from the pool into a new vesting schedule of
    /// `buyer` that starts now, has no cliff and lasts `duration` seconds.
    pub fn buy_vested_shares(
        &mut self,
        buyer: AccountId,
        shares: u32,
        duration: u64,
        payment_token: AccountId,
        now: u64,
        oracle_reply: Option<i128>,
    ) -> (r: Result<Vec<Effect>, MarketError>)
        ensures
            match r {
                Err(e) => {
                    &&& old(self)@.vested_buy_refusal(shares, duration, payment_token, oracle_reply)
                        == Some(e)
                    &&& final(self)@ == old(self)@
                },
                Ok(effects) => {
                    let pre = old(self)@;
                    let cost = (pre.price_from(oracle_reply).0 * shares) as i128;
                    &&& pre.vested_buy_refusal(shares, duration, payment_token, oracle_reply) is None
                    &&& final(self)@ == (MarketView {
                        available_shares: Some((pre.available_shares.unwrap() - shares) as u32),
                        vesting: pre.vesting.insert(
                            buyer,
                            pre.schedules(buyer).push(
                                VestingSchedule {
                                    start: now,
                                    cliff: 0,
                                    duration,
                                    total_amount: shares,
                                    claimed_amount: 0,
                                },
                            ),
                        ),
                        holders: pre.holders_with(buyer),
                        ..pre
                    })
                    &&& effects@ == seq![Effect::RequireAuth(buyer)] + pre.price_effects(oracle_reply)
                        + seq![
                        Effect::Transfer {
                            token: payment_token,
                            from: buyer,
                            to: pre.admin.unwrap(),
                            amount: cost,
                        },
                        Effect::Emit(Event::BuyShares(EventBuyShares { buyer, shares, total_cost: cost })),
                    ]
                },
            },
            old(self).shares_conserved() ==> final(self).shares_conserved(),
    {
        if self.paused == Some(true) {
            return Err(MarketError::MarketplacePaused);
        }
        if shares == 0 {
            return Err(MarketError::ZeroSharePurchase);
        }
        if duration == 0 {
            return Err(MarketError::VestingDurationZero);
        }
        let available = match self.available_shares {
            Some(a) => a,
            None => {
                return Err(MarketError::NotInitialized);
            },
        };
        if shares > available {
            return Err(MarketError::NotEnoughSharesAvailable);
        }
        if !self.accepts(payment_token) {
            return Err(MarketError::PaymentTokenNotAccepted);
        }
        if self.price_per_share.is_none() {
            return Err(MarketError::NotInitialized);
        }
        let (price, price_event) = self.price_for_purchase(oracle_reply);
        let total_cost = match price.checked_mul(shares as i128) {
            Some(c) => c,
            None => {
                return Err(MarketError::ArithmeticOverflow);
            },
        };
        let admin = match self.admin {
            Some(a) => a,
            None => {
                return Err(MarketError::NotInitialized);
            },
        };
        let ghost pre = *self;
        let mut effects: Vec<Effect> = Vec::new();
        effects.push(Effect::RequireAuth(buyer));
        match price_event {
            Some(e) => effects.push(Effect::Emit(e)),
            None => {},
        }
        effects.push(Effect::Transfer { token: payment_token, from: buyer, to: admin, amount: total_cost });
        effects.push(Effect::Emit(Event::BuyShares(EventBuyShares { buyer, shares, total_cost })));

        self.available_shares = Some(available - shares);
        let schedule = VestingSchedule { start: now, cliff: 0, duration, total_amount: shares, claimed_amount: 0 };
        let mut schedules = self.get_vesting_schedules(buyer);
        schedules.push(schedule);
        let ghost new_list = schedules@;
        self.vesting.insert(buyer, schedules);
        self.register_holder(buyer);
        proof {
            KeyedTable::<AccountId, Vec<VestingSchedule>>::lemma_insert_weight(pre.vesting, self.vesting, buyer, schedules);
            assert(new_list.drop_last() =~= pre@.schedules(buyer));
            assert(self@.vesting =~= pre@.vesting.insert(buyer, new_list));
            assert(effects@ =~= seq![Effect::RequireAuth(buyer)] + pre@.price_effects(oracle_reply) + seq![
                Effect::Transfer { token: payment_token, from: buyer, to: admin, amount: total_cost },
                Effect::Emit(Event::BuyShares(EventBuyShares { buyer, shares, total_cost })),
            ]);
            assert(unclaimed_total(new_list) == unclaimed_total(pre@.schedules(buyer)) + shares);
            if pre.vesting@.contains_key(buyer) {
                assert(pre@.schedules(buyer) == pre.vesting@[buyer]@);
            } else {
                assert(unclaimed_total(pre@.schedules(buyer)) == 0);
            }
            assert(self.vesting.total_weight() == pre.vesting.total_weight() + shares);
            assert(self.circulating() == pre.circulating() + shares);
            if pre.shares_conserved() {
                let b = buyer;
                if pre.vesting@.contains_key(b) {
                    assert(pre@.schedules(b) == pre.vesting@[b]@);
                }
                assert forall|a: AccountId, i: int|
                    #![trigger self.vesting@[a]@[i]]
                    self.vesting@.contains_key(a) && 0 <= i < self.vesting@[a]@.len()
                        implies self.vesting@[a]@[i].claimed_amount <= self.vesting@[a]@[i].total_amount by {
                    if a == b {
                        if i < new_list.len() - 1 {
                            assert(new_list[i] == pre.vesting@[b]@[i]);
                        }
                    } else {
                        assert(self.vesting@[a] == pre.vesting@[a]);
                    }
                }
            }
        }
        Ok(effects)
    }

    /// Claims every vested, unclaimed share of `claimer` into its liquid
    /// balance. Fully claimed schedules are dropped.
    pub fn claim_vested_shares(&mut self, claimer: AccountId, now: u64) -> (r: Result<Vec<Effect>, MarketError>)
        ensures
            ({
                let pre = old(self)@;
                let run = claim_run(pre.schedules(claimer), now);
                match r {
                    Err(e) => {
                        &&& run.total == 0
                        &&& e == MarketError::NothingToClaim
                        &&& final(self)@ == pre
                    },
                    Ok(effects) => {
                        &&& run.total > 0
                        &&& final(self)@ == (MarketView {
                            balances: pre.balances.insert(
                                claimer,
                                pre.balance(claimer).saturating_add(run.total),
                            ),
                            vesting: pre.vesting.insert(claimer, run.kept),
                            ..pre
                        })
                        &&& effects@ == seq![
                            Effect::RequireAuth(claimer),
                            Effect::Emit(
                                Event::ClaimVestedShares(
                                    EventClaimVestedShares { claimer, amount: run.total },
                                ),
                            ),
                        ]
                    },
                }
            }),
            old(self).shares_conserved() ==> final(self).shares_conserved(),
    {
        let schedules = self.get_vesting_schedules(claimer);
        let ghost s = schedules@;
        let mut total_claimable: u32 = 0;
        let mut updated: Vec<VestingSchedule> = Vec::new();
        let n = schedules.len();
        let mut i: usize = 0;
        while i < n
            invariant
                n == s.len(),
                s == schedules@,
                i <= n,
                total_claimable == claim_run(s.take(i as int), now).total,
                updated@ == claim_run(s.take(i as int), now).kept,
            decreases n - i,
        {
            let schedule = schedules[i];
            proof {
                assert(s.take(i + 1).drop_last() =~= s.take(i as int));
                assert(s.take(i + 1).last() == schedule);
            }
            let vested = Self::compute_vested_amount(&schedule, now);
            let available = vested.saturating_sub(schedule.claimed_amount);
            if available > 0 {
                total_claimable = total_claimable.saturating_add(available);
                let claimed = VestingSchedule {
                    claimed_amount: schedule.claimed_amount.saturating_add(available),
                    ..schedule
                };
                if claimed.claimed_amount < claimed.total_amount {
                    updated.push(claimed);
                }
            } else {
                updated.push(schedule);
            }
            i = i + 1;
        }
        proof {
            assert(s.take(n as int) =~= s);
        }
        if total_claimable == 0 {
            return Err(MarketError::NothingToClaim);
        }
        let ghost pre = *self;
        let prev_balance = self.balance_of(claimer);
        let new_balance = prev_balance.saturating_add(total_claimable);
        self.balances.insert(claimer, new_balance);
        let ghost kept = updated@;
        self.vesting.insert(claimer, updated);
        proof {
            KeyedTable::<AccountId, u32>::lemma_insert_weight(pre.balances, self.balances, claimer, new_balance);
            KeyedTable::<AccountId, Vec<VestingSchedule>>::lemma_insert_weight(pre.vesting, self.vesting, claimer, updated);
            assert(self@.vesting =~= pre@.vesting.insert(claimer, kept));
            if pre.shares_conserved() {
                KeyedTable::<AccountId, u32>::lemma_weight_bound(pre.balances, claimer);
                KeyedTable::<AccountId, u32>::lemma_weight_bound(pre.bridge_locked, claimer);
                KeyedTable::<u64, crate::types::SellOrder>::lemma_weight_bound(pre.sell_orders, 0);
                KeyedTable::<AccountId, Vec<VestingSchedule>>::lemma_weight_bound(pre.vesting, claimer);
                if pre.vesting@.contains_key(claimer) {
                    assert(s == pre.vesting@[claimer]@);
                    assert forall|j: int| 0 <= j < s.len() implies #[trigger] s[j].claimed_amount
                        <= s[j].total_amount by {
                        assert(s[j] == pre.vesting@[claimer]@[j]);
                    }
                } else {
                    assert(s.len() == 0);
                }
                lemma_unclaimed_total_nonneg(s);
                lemma_claim_run_moves_shares(s, now);
                lemma_unclaimed_total_nonneg(kept);
                assert forall|a: AccountId, j: int|
                    #![trigger self.vesting@[a]@[j]]
                    self.vesting@.contains_key(a) && 0 <= j < self.vesting@[a]@.len()
                        implies self.vesting@[a]@[j].claimed_amount <= self.vesting@[a]@[j].total_amount by {
                    if a != claimer {
                        assert(self.vesting@[a] == pre.vesting@[a]);
                    }
                }
            }
        }
        let mut effects: Vec<Effect> = Vec::new();
        effects.push(Effect::RequireAuth(claimer));
        effects.push(Effect::Emit(Event::ClaimVestedShares(EventClaimVestedShares { claimer, amount: total_claimable })));
        Ok(effects)
    }

    /// Shares of `owner` claimable at `timestamp`, over all its schedules.
    pub(crate) fn calc_claimable_vested_shares(&self, owner: AccountId, timestamp: u64) -> (r: u32)
        ensures
            r == claimable_total(self@.schedules(owner), timestamp),
    {
        let schedules = self.get_vesting_schedules(owner);
        let ghost s = schedules@;
        let mut claimable: u32 = 0;
        let mut i: usize = 0;
        while i < schedules.len()
            invariant
                s == schedules@,
                i <= s.len(),
                claimable == claimable_total(s.take(i as int), timestamp),
            decreases s.len() - i,
        {
            proof {
                assert(s.take(i + 1).drop_last() =~= s.take(i as int));
            }
            let vested = Self::compute_vested_amount(&schedules[i], timestamp);
            let available = vested.saturating_sub(schedules[i].claimed_amount);
            claimable = claimable.saturating_add(available);
            i = i + 1;
        }
        proof {
            assert(s.take(s.len() as int) =~= s);
        }
        claimable
    }

    /// Shares of `owner` claimable now.
    pub fn get_claimable_vested_shares(&self, owner: AccountId, now: u64) -> (r: u32)
        ensures
            r == claimable_total(self@.schedules(owner), now),
            r == claim_run(self@.schedules(owner), now).total,
    {
        proof {
            lemma_claimable_is_claimed(self@.schedules(owner), now);
        }
        self.calc_claimable_vested_shares(owner, now)
    }

    /// Shares of `owner` still locked in vesting schedules.
    pub fn get_locked_shares(&self, owner: AccountId) -> (r: u32)
        ensures
            r == locked_total(self@.schedules(owner)),
    {
        let schedules = self.get_vesting_schedules(owner);
        let ghost s = schedules@;
        let mut locked: u32 = 0;
        let mut i: usize = 0;
        while i < schedules.len()
            invariant
                s == schedules@,
                i <= s.len(),
                locked == locked_total(s.take(i as int)),
            decreases s.len() - i,
        {
            proof {
                assert(s.take(i + 1).drop_last() =~= s.take(i as int));
            }
            locked = locked.saturating_add(schedules[i].total_amount.saturating_sub(schedules[i].claimed_amount));
            i = i + 1;
        }
        proof {
            assert(s.take(s.len() as int) =~= s);
        }
        locked
    }

    /// Liquid shares of `owner` plus the shares still locked in its vesting
    /// schedules, saturating.
    pub fn total_owned_shares(&self, owner: AccountId) -> (r: u32)
        ensures
            r == self@.balance(owner).saturating_add(locked_total(self@.schedules(owner))),
    {
        let liquid = self.balance_of(owner);
        let locked = self.get_locked_shares(owner);
        liquid.saturating_add(locked)
    }
}

} // verus!
