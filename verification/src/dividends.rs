//! Pro-rata dividends to the registered holders, on demand and on a schedule.
use vstd::prelude::*;

use crate::events::{
    Effect, Event, EventDistributeDividends, EventScheduledDividend, EventSetDividendSchedule,
};
use crate::laws::law_distribution_covered;
use crate::market::{MarketView, RwaMarketplace, FN_DIVIDEND};
use crate::types::{AccountId, DividendSchedule, MarketError};

verus! {

/// The running state of a distribution after a prefix of the holders.
pub struct DividendProgress {
    /// Holders that still hold liquid shares, in registry order.
    pub active: Seq<AccountId>,
    /// The payouts made so far.
    pub effects: Seq<Effect>,
    pub overflow: bool,
}

/// Sum of the amounts that a list of effects pays out of the contract.
pub open spec fn paid_out(effects: Seq<Effect>) -> int
    decreases effects.len(),
{
    if effects.len() == 0 {
        0
    } else {
        paid_out(effects.drop_last()) + match effects.last() {
            Effect::Payout { amount, .. } => amount as int,
            _ => 0,
        }
    }
}

/// Liquid shares held by a list of accounts, each entry counted.
pub open spec fn held_by(v: MarketView, accounts: Seq<AccountId>) -> int
    decreases accounts.len(),
{
    if accounts.len() == 0 {
        0
    } else {
        held_by(v, accounts.drop_last()) + v.balance(accounts.last())
    }
}

impl MarketView {
    /// The share of `total_amount` owed to a holder of `shares` of
    /// `total_shares` shares, rounded down.
    pub open spec fn pro_rata(total_amount: i128, shares: u32, total_shares: u32) -> int {
        (total_amount * shares) / (total_shares as int)
    }

    /// Pays each holder of `holders` with liquid shares its pro-rata part of
    /// `total_amount` in `token` (nothing when the part rounds to zero), and
    /// keeps exactly those holders.
    pub open spec fn dividend_run(
        self,
        holders: Seq<AccountId>,
        token: AccountId,
        total_amount: i128,
        total_shares: u32,
    ) -> DividendProgress
        decreases holders.len(),
    {
        if holders.len() == 0 {
            DividendProgress { active: Seq::empty(), effects: Seq::empty(), overflow: false }
        } else {
            let p = self.dividend_run(holders.drop_last(), token, total_amount, total_shares);
            let h = holders.last();
            let shares = self.balance(h);
            if p.overflow || shares == 0 {
                p
            } else if !(i128::MIN <= total_amount * shares <= i128::MAX) {
                DividendProgress { active: p.active.push(h), overflow: true, ..p }
            } else {
                let amount = Self::pro_rata(total_amount, shares, total_shares);
                DividendProgress {
                    active: p.active.push(h),
                    effects: if amount > 0 {
                        p.effects.push(Effect::Payout { token, to: h, amount: amount as i128 })
                    } else {
                        p.effects
                    },
                    overflow: false,
                }
            }
        }
    }

    /// Why `distribute_dividends` is refused before any holder is paid.
    pub open spec fn distribute_refusal(self, total_amount: i128) -> Option<MarketError> {
        if self.admin is None {
            Some(MarketError::NotInitialized)
        } else if self.fn_paused(FN_DIVIDEND) {
            Some(MarketError::DividendsPaused)
        } else if total_amount <= 0 {
            Some(MarketError::DividendAmountNotPositive)
        } else if self.total_shares is None {
            Some(MarketError::NotInitialized)
        } else if self.total_shares.unwrap() == 0 {
            Some(MarketError::NoSharesIssued)
        } else if self.holders.len() == 0 {
            Some(MarketError::NoHoldersRegistered)
        } else {
            None
        }
    }

    /// The total paid by a scheduled dividend: the amount per share times the
    /// total supply.
    pub open spec fn scheduled_total(self) -> int {
        self.dividend_schedule.unwrap().amount_per_share * self.total_shares.unwrap()
    }

    /// Why `process_scheduled_dividend` is refused before any holder is paid.
    pub open spec fn scheduled_dividend_refusal(self, now: u64) -> Option<MarketError> {
        if now < self.last_distribution {
            Some(MarketError::TimestampBeforeLastDistribution)
        } else if self.dividend_schedule is None {
            Some(MarketError::DividendScheduleNotConfigured)
        } else if now < self.last_distribution.saturating_add(
            self.dividend_schedule.unwrap().interval,
        ) {
            Some(MarketError::DividendIntervalNotElapsed)
        } else if self.total_shares is None {
            Some(MarketError::NotInitialized)
        } else if self.total_shares.unwrap() == 0 {
            Some(MarketError::NoSharesIssued)
        } else if !(i128::MIN <= self.scheduled_total() <= i128::MAX) {
            Some(MarketError::ArithmeticOverflow)
        } else if self.scheduled_total() <= 0 {
            Some(MarketError::DividendTotalNotPositive)
        } else if self.holders.len() == 0 {
            Some(MarketError::NoHoldersRegistered)
        } else if self.payment_token is None {
            Some(MarketError::NotInitialized)
        } else {
            None
        }
    }

    /// Why `set_dividend_schedule` is refused, if it is.
    pub open spec fn dividend_schedule_refusal(self, amount_per_share: i128, interval: u64) -> Option<
        MarketError,
    > {
        if self.admin is None {
            Some(MarketError::NotInitialized)
        } else if amount_per_share <= 0 {
            Some(MarketError::AmountPerShareNotPositive)
        } else if interval == 0 {
            Some(MarketError::IntervalNotPositive)
        } else {
            None
        }
    }
}

/// The holders a distribution keeps come from the registry, in order, so a
/// registry without repeats stays without repeats.
proof fn lemma_dividend_active_distinct(
    v: MarketView,
    holders: Seq<AccountId>,
    token: AccountId,
    total_amount: i128,
    total_shares: u32,
)
    requires
        holders.no_duplicates(),
    ensures
        ({
            let p = v.dividend_run(holders, token, total_amount, total_shares);
            &&& p.active.no_duplicates()
            &&& forall|x: AccountId| #[trigger] p.active.contains(x) ==> holders.contains(x)
        }),
    decreases holders.len(),
{
    if holders.len() > 0 {
        let init = holders.drop_last();
        let h = holders.last();
        assert(init.no_duplicates()) by {
            assert forall|i: int, j: int| 0 <= i < init.len() && 0 <= j < init.len() && i != j implies init[i]
                != init[j] by {
                assert(init[i] == holders[i] && init[j] == holders[j]);
            }
        }
        lemma_dividend_active_distinct(v, init, token, total_amount, total_shares);
        let p = v.dividend_run(init, token, total_amount, total_shares);
        assert(!init.contains(h)) by {
            if init.contains(h) {
                let i = choose|i: int| 0 <= i < init.len() && init[i] == h;
                assert(holders[i] == holders[holders.len() - 1]);
            }
        }
        assert forall|x: AccountId| p.active.push(h).contains(x) implies holders.contains(x) by {
            if x == h {
                assert(holders[holders.len() - 1] == h);
            } else {
                let i = choose|i: int| 0 <= i < p.active.push(h).len() && p.active.push(h)[i] == x;
                assert(p.active.contains(x)) by {
                    assert(p.active[i] == x);
                }
                assert(init.contains(x));
                let j = choose|j: int| 0 <= j < init.len() && init[j] == x;
                assert(holders[j] == x);
            }
        }
        assert forall|x: AccountId| p.active.contains(x) implies holders.contains(x) by {
            assert(init.contains(x));
            let j = choose|j: int| 0 <= j < init.len() && init[j] == x;
            assert(holders[j] == x);
        }
        assert(p.active.push(h).no_duplicates()) by {
            assert(!p.active.contains(h));
            assert forall|i: int, j: int| 0 <= i < p.active.push(h).len() && 0 <= j < p.active.push(h).len()
                && i != j implies p.active.push(h)[i] != p.active.push(h)[j] by {
                if i == p.active.len() {
                    assert(p.active.push(h)[j] == p.active[j]);
                } else if j == p.active.len() {
                    assert(p.active.push(h)[i] == p.active[i]);
                }
            }
        }
    }
}

impl RwaMarketplace {
    /// Pays the holders and returns the holders that still hold shares;
    /// `Err` when a holder's part overflows.
    fn pay_holders(
        &self,
        token: AccountId,
        total_amount: i128,
        total_shares: u32,
        effects: &mut Vec<Effect>,
    ) -> (r: Result<Vec<AccountId>, MarketError>)
        requires
            total_amount > 0,
            total_shares > 0,
        ensures
            ({
                let p = self@.dividend_run(self@.holders, token, total_amount, total_shares);
                match r {
                    Err(e) => p.overflow && e == MarketError::ArithmeticOverflow,
                    Ok(active) => {
                        &&& !p.overflow
                        &&& active@ == p.active
                        &&& final(effects)@ == old(effects)@ + p.effects
                    },
                }
            }),
    {
        let ghost effects0 = effects@;
        let mut active: Vec<AccountId> = Vec::new();
        let n = self.holders.len();
        let mut i: usize = 0;
        while i < n
            invariant
                n == self@.holders.len(),
                i <= n,
                total_amount > 0,
                total_shares > 0,
                ({
                    let p = self@.dividend_run(self@.holders.take(i as int), token, total_amount, total_shares);
                    &&& !p.overflow
                    &&& active@ == p.active
                    &&& effects@ == effects0 + p.effects
                }),
            decreases n - i,
        {
            let holder = self.holders[i];
            proof {
                assert(self@.holders.take(i + 1).drop_last() =~= self@.holders.take(i as int));
                assert(self@.holders.take(i + 1).last() == holder);
            }
            let holder_shares = self.balance_of(holder);
            if holder_shares > 0 {
                active.push(holder);
                let product = match total_amount.checked_mul(holder_shares as i128) {
                    Some(p) => p,
                    None => {
                        proof {
                            lemma_dividend_overflow_sticks(self@, self@.holders, token, total_amount, total_shares, i + 1);
                        }
                        return Err(MarketError::ArithmeticOverflow);
                    },
                };
                proof {
                    assert(product > 0) by (nonlinear_arith)
                        requires
                            product == total_amount * holder_shares,
                            total_amount > 0,
                            holder_shares > 0,
                    ;
                }
                let holder_amount = product / (total_shares as i128);
                if holder_amount > 0 {
                    effects.push(Effect::Payout { token, to: holder, amount: holder_amount });
                }
            }
            proof {
                let q = self@.dividend_run(self@.holders.take(i + 1), token, total_amount, total_shares);
                assert(effects@ =~= effects0 + q.effects);
            }
            i = i + 1;
        }
        proof {
            assert(self@.holders.take(n as int) =~= self@.holders);
        }
        Ok(active)
    }

    /// Distributes `total_amount` of `token`, held by the contract, pro rata
    /// among the holders by their liquid shares out of the total supply.
    /// Holders without liquid shares leave the registry. Admin only.
    pub fn distribute_dividends(&mut self, token: AccountId, total_amount: i128) -> (r: Result<Vec<Effect>, MarketError>)
        ensures
            ({
                let pre = old(self)@;
                let run = pre.dividend_run(pre.holders, token, total_amount, pre.total_shares.unwrap());
                match r {
                    Err(e) => {
                        &&& final(self)@ == pre
                        &&& (pre.distribute_refusal(total_amount) == Some(e) || (
                        pre.distribute_refusal(total_amount) is None && run.overflow && e
                            == MarketError::ArithmeticOverflow))
                    },
                    Ok(effects) => {
                        &&& pre.distribute_refusal(total_amount) is None
                        &&& !run.overflow
                        &&& final(self)@ == (MarketView { holders: run.active, ..pre })
                        &&& effects@ == seq![Effect::RequireAuth(pre.admin.unwrap())] + run.effects
                            + seq![
                            Effect::Emit(
                                Event::DistributeDividends(
                                    EventDistributeDividends {
                                        token,
                                        total_amount,
                                        holder_count: run.active.len() as u32,
                                    },
                                ),
                            ),
                        ]
                    },
                }
            }),
            old(self).shares_conserved() ==> final(self).shares_conserved(),
            old(self).shares_conserved() && r is Ok ==> paid_out(
                old(self)@.dividend_run(
                    old(self)@.holders,
                    token,
                    total_amount,
                    old(self)@.total_shares.unwrap(),
                ).effects,
            ) <= total_amount,
    {
        let admin = match self.admin {
            Some(a) => a,
            None => {
                return Err(MarketError::NotInitialized);
            },
        };
        if self.fn_paused(FN_DIVIDEND) {
            return Err(MarketError::DividendsPaused);
        }
        if total_amount <= 0 {
            return Err(MarketError::DividendAmountNotPositive);
        }
        let total_shares = match self.total_shares {
            Some(t) => t,
            None => {
                return Err(MarketError::NotInitialized);
            },
        };
        if total_shares == 0 {
            return Err(MarketError::NoSharesIssued);
        }
        if self.holders.len() == 0 {
            return Err(MarketError::NoHoldersRegistered);
        }
        let mut effects: Vec<Effect> = Vec::new();
        effects.push(Effect::RequireAuth(admin));
        let active = match self.pay_holders(token, total_amount, total_shares, &mut effects) {
            Ok(a) => a,
            Err(e) => {
                return Err(e);
            },
        };
        let holder_count = active.len() as u32;
        effects.push(Effect::Emit(Event::DistributeDividends(EventDistributeDividends {
            token,
            total_amount,
            holder_count,
        })));
        proof {
            if self@.holders.no_duplicates() {
                lemma_dividend_active_distinct(self@, self@.holders, token, total_amount, total_shares);
            }
            use_type_invariant(&self.balances);
            if self.shares_conserved() {
                law_distribution_covered(*self, token, total_amount);
            }
        }
        self.holders = active;
        Ok(effects)
    }

    /// Sets the recurring dividend: `amount_per_share` every `interval`
    /// seconds. Admin only.
    pub fn set_dividend_schedule(&mut self, amount_per_share: i128, interval: u64) -> (r: Result<Vec<Effect>, MarketError>)
        ensures
            match r {
                Err(e) => {
                    &&& old(self)@.dividend_schedule_refusal(amount_per_share, interval) == Some(e)
                    &&& final(self)@ == old(self)@
                },
                Ok(effects) => {
                    &&& old(self)@.dividend_schedule_refusal(amount_per_share, interval) is None
                    &&& final(self)@ == (MarketView {
                        dividend_schedule: Some(DividendSchedule { amount_per_share, interval }),
                        ..old(self)@
                    })
                    &&& effects@ == seq![
                        Effect::RequireAuth(old(self)@.admin.unwrap()),
                        Effect::Emit(
                            Event::SetDividendSchedule(
                                EventSetDividendSchedule { amount_per_share, interval },
                            ),
                        ),
                    ]
                },
            },
            old(self).shares_conserved() ==> final(self).shares_conserved(),
    {
        let admin = match self.admin {
            Some(a) => a,
            None => {
                return Err(MarketError::NotInitialized);
            },
        };
        if amount_per_share <= 0 {
            return Err(MarketError::AmountPerShareNotPositive);
        }
        if interval == 0 {
            return Err(MarketError::IntervalNotPositive);
        }
        self.dividend_schedule = Some(DividendSchedule { amount_per_share, interval });
        let mut effects: Vec<Effect> = Vec::new();
        effects.push(Effect::RequireAuth(admin));
        effects.push(Effect::Emit(Event::SetDividendSchedule(EventSetDividendSchedule { amount_per_share, interval })));
        Ok(effects)
    }

    /// The recurring dividend, if one is set.
    pub fn get_dividend_schedule(&self) -> (r: Option<DividendSchedule>)
        ensures
            r == self@.dividend_schedule,
    {
        self.dividend_schedule
    }

    /// Pays the scheduled dividend once its interval has elapsed since the
    /// last one: the amount per share times the total supply, in the payment
    /// token, pro rata to the holders. Anyone may call it.
    pub fn process_scheduled_dividend(&mut self, now: u64) -> (r: Result<Vec<Effect>, MarketError>)
        ensures
            ({
                let pre = old(self)@;
                let total = pre.scheduled_total() as i128;
                let run = pre.dividend_run(pre.holders, pre.payment_token.unwrap(), total, pre.total_shares.unwrap());
                match r {
                    Err(e) => {
                        &&& final(self)@ == pre
                        &&& (pre.scheduled_dividend_refusal(now) == Some(e) || (
                        pre.scheduled_dividend_refusal(now) is None && run.overflow && e
                            == MarketError::ArithmeticOverflow))
                    },
                    Ok(effects) => {
                        &&& pre.scheduled_dividend_refusal(now) is None
                        &&& !run.overflow
                        &&& final(self)@ == (MarketView {
                            holders: run.active,
                            last_distribution: now,
                            ..pre
                        })
                        &&& effects@ == run.effects + seq![
                            Effect::Emit(
                                Event::ScheduledDividend(
                                    EventScheduledDividend {
                                        total_amount: total,
                                        holder_count: run.active.len() as u32,
                                    },
                                ),
                            ),
                        ]
                    },
                }
            }),
            old(self).shares_conserved() ==> final(self).shares_conserved(),
            old(self).shares_conserved() && r is Ok ==> paid_out(
                old(self)@.dividend_run(
                    old(self)@.holders,
                    old(self)@.payment_token.unwrap(),
                    old(self)@.scheduled_total() as i128,
                    old(self)@.total_shares.unwrap(),
                ).effects,
            ) <= old(self)@.scheduled_total(),
    {
        let last_distribution = self.last_distribution;
        if now < last_distribution {
            return Err(MarketError::TimestampBeforeLastDistribution);
        }
        let schedule = match self.dividend_schedule {
            Some(s) => s,
            None => {
                return Err(MarketError::DividendScheduleNotConfigured);
            },
        };
        if now < last_distribution.saturating_add(schedule.interval) {
            return Err(MarketError::DividendIntervalNotElapsed);
        }
        let total_shares = match self.total_shares {
            Some(t) => t,
            None => {
                return Err(MarketError::NotInitialized);
            },
        };
        if total_shares == 0 {
            return Err(MarketError::NoSharesIssued);
        }
        let total_amount = match schedule.amount_per_share.checked_mul(total_shares as i128) {
            Some(t) => t,
            None => {
                return Err(MarketError::ArithmeticOverflow);
            },
        };
        if total_amount <= 0 {
            return Err(MarketError::DividendTotalNotPositive);
        }
        if self.holders.len() == 0 {
            return Err(MarketError::NoHoldersRegistered);
        }
        let token = match self.payment_token {
            Some(t) => t,
            None => {
                return Err(MarketError::NotInitialized);
            },
        };
        let mut effects: Vec<Effect> = Vec::new();
        let active = match self.pay_holders(token, total_amount, total_shares, &mut effects) {
            Ok(a) => a,
            Err(e) => {
                return Err(e);
            },
        };
        let holder_count = active.len() as u32;
        effects.push(Effect::Emit(Event::ScheduledDividend(EventScheduledDividend { total_amount, holder_count })));
        proof {
            if self@.holders.no_duplicates() {
                lemma_dividend_active_distinct(self@, self@.holders, token, total_amount, total_shares);
            }
            use_type_invariant(&self.balances);
            if self.shares_conserved() {
                law_distribution_covered(*self, token, total_amount);
            }
        }
        self.holders = active;
        self.last_distribution = now;
        proof {
            assert(effects@ =~= old(self)@.dividend_run(old(self)@.holders, token, total_amount, total_shares).effects + seq![
                Effect::Emit(Event::ScheduledDividend(EventScheduledDividend { total_amount, holder_count })),
            ]);
        }
        Ok(effects)
    }
}

/// Once a holder's part overflows, the distribution stays overflowed.
pub proof fn lemma_dividend_overflow_sticks(
    m: MarketView,
    holders: Seq<AccountId>,
    token: AccountId,
    total_amount: i128,
    total_shares: u32,
    k: int,
)
    requires
        0 <= k <= holders.len(),
        m.dividend_run(holders.take(k), token, total_amount, total_shares).overflow,
    ensures
        m.dividend_run(holders, token, total_amount, total_shares).overflow,
    decreases holders.len() - k,
{
    if k < holders.len() {
        assert(holders.take(k + 1).drop_last() =~= holders.take(k));
        lemma_dividend_overflow_sticks(m, holders, token, total_amount, total_shares, k + 1);
    } else {
        assert(holders.take(k) =~= holders);
    }
}

} // verus!
