//! The profile record and the arithmetic of its five operations.
//!
//! Every operation is a total function from the current record and its input
//! to either the next record or a typed failure.  The spec functions
//! `fresh`, `with_score`, `with_loan`, `with_repayment` and `with_verification`
//! say what that function is; the executable methods compute it in place and
//! leave the record untouched on failure.
//!
//! Additive fields fail on overflow.  The outstanding debt alone is reduced
//! with a clamp at zero: a repayment larger than the debt is accepted.

use vstd::prelude::*;
use crate::error::TigerTrustError;
use crate::identity::Identity;
use crate::tier::Tier;

verus! {

/// The score that a new profile starts with.
pub const BASE_SCORE: u16 = 300;

/// The largest score that a profile may hold.
pub const MAX_SCORE: u16 = 1000;

/// The reputation record of one owner.
#[derive(Clone, Copy, Debug, PartialEq, Eq)]
pub struct UserProfile {
    /// The identity that owns this profile.  Fixed at creation.
    pub wallet: Identity,
    /// The score, between 0 and `MAX_SCORE`.
    pub tiger_score: u16,
    /// The risk tier, stored independently of the score.
    pub tier: Tier,
    /// Whether the owner passed human verification.
    pub human_verified: bool,
    /// Number of loans recorded.
    pub total_loans: u32,
    /// Number of repayments recorded that were not defaults.
    pub successful_repayments: u32,
    /// Number of defaults recorded.
    pub defaults: u32,
    /// Sum of all loan amounts, in minor currency units.
    pub total_borrowed: u64,
    /// Sum of all repayment amounts, in minor currency units.
    pub total_repaid: u64,
    /// Debt still open, maintained step by step and never below zero.
    pub outstanding_debt: u64,
    /// Time of creation, in seconds since the epoch.
    pub created_at: i64,
    /// Time of the latest score update, in seconds since the epoch.
    pub last_score_update: i64,
    /// The proof that the record's address was derived from `wallet`.  Fixed at creation.
    pub bump: u8,
}

impl UserProfile {
    /// What must hold of a record after every operation: the score is in
    /// range, the open debt never exceeds what was borrowed, and it is never
    /// less than what was borrowed minus what was repaid.
    pub open spec fn wf(self) -> bool {
        &&& self.tiger_score <= MAX_SCORE
        &&& self.outstanding_debt <= self.total_borrowed
        &&& self.total_borrowed - self.total_repaid <= self.outstanding_debt
    }

    /// The open debt equals what was borrowed minus what was repaid.  This
    /// holds as long as no repayment has exceeded the debt it met.
    pub open spec fn debt_is_exact(self) -> bool {
        self.outstanding_debt == self.total_borrowed - self.total_repaid
    }

    /// How a record may differ from an earlier state of itself: owner, proof
    /// and creation time are fixed, and every counter and accumulator other
    /// than the open debt only grows.
    pub open spec fn extends(self, before: UserProfile) -> bool {
        &&& self.wallet == before.wallet
        &&& self.bump == before.bump
        &&& self.created_at == before.created_at
        &&& self.total_loans >= before.total_loans
        &&& self.successful_repayments >= before.successful_repayments
        &&& self.defaults >= before.defaults
        &&& self.total_borrowed >= before.total_borrowed
        &&& self.total_repaid >= before.total_repaid
    }

    /// The record that creation yields.
    pub open spec fn fresh(
        wallet: Identity,
        bump: u8,
        human_verified: bool,
        now: i64,
    ) -> UserProfile {
        UserProfile {
            wallet,
            tiger_score: BASE_SCORE,
            tier: Tier::Silver,
            human_verified,
            total_loans: 0,
            successful_repayments: 0,
            defaults: 0,
            total_borrowed: 0,
            total_repaid: 0,
            outstanding_debt: 0,
            created_at: now,
            last_score_update: now,
            bump,
        }
    }

    /// The outcome of a score update.  The tier is taken as supplied.
    pub open spec fn with_score(self, new_score: u16, new_tier: Tier, now: i64) -> Result<
        UserProfile,
        TigerTrustError,
    > {
        if new_score > MAX_SCORE {
            Err(TigerTrustError::InvalidScore)
        } else {
            Ok(
                UserProfile {
                    tiger_score: new_score,
                    tier: new_tier,
                    last_score_update: now,
                    ..self
                },
            )
        }
    }

    /// The outcome of recording a loan of `amount`.
    pub open spec fn with_loan(self, amount: u64) -> Result<UserProfile, TigerTrustError> {
        if self.total_loans + 1 > u32::MAX || self.total_borrowed + amount > u64::MAX
            || self.outstanding_debt + amount > u64::MAX {
            Err(TigerTrustError::Overflow)
        } else {
            Ok(
                UserProfile {
                    total_loans: (self.total_loans + 1) as u32,
                    total_borrowed: (self.total_borrowed + amount) as u64,
                    outstanding_debt: (self.outstanding_debt + amount) as u64,
                    ..self
                },
            )
        }
    }

    /// The open debt after a repayment of `amount`: reduced, but not below zero.
    pub open spec fn debt_after(self, amount: u64) -> u64 {
        if amount >= self.outstanding_debt {
            0
        } else {
            (self.outstanding_debt - amount) as u64
        }
    }

    /// The outcome of recording a repayment of `amount`, which counts as a
    /// default where `is_default` is set.
    pub open spec fn with_repayment(self, amount: u64, is_default: bool) -> Result<
        UserProfile,
        TigerTrustError,
    > {
        if is_default && self.defaults + 1 > u32::MAX {
            Err(TigerTrustError::Overflow)
        } else if !is_default && self.successful_repayments + 1 > u32::MAX {
            Err(TigerTrustError::Overflow)
        } else if self.total_repaid + amount > u64::MAX {
            Err(TigerTrustError::Overflow)
        } else {
            Ok(
                UserProfile {
                    defaults: if is_default {
                        (self.defaults + 1) as u32
                    } else {
                        self.defaults
                    },
                    successful_repayments: if is_default {
                        self.successful_repayments
                    } else {
                        (self.successful_repayments + 1) as u32
                    },
                    total_repaid: (self.total_repaid + amount) as u64,
                    outstanding_debt: self.debt_after(amount),
                    ..self
                },
            )
        }
    }

    /// The record with its verification flag set to `verified`.
    pub open spec fn with_verification(self, verified: bool) -> UserProfile {
        UserProfile { human_verified: verified, ..self }
    }

    /// Creates the record of `wallet`: base score, silver tier, no history,
    /// both timestamps at `now`.
    pub fn initialize(wallet: Identity, bump: u8, human_verified: bool, now: i64) -> (profile:
        UserProfile)
        ensures
            profile == UserProfile::fresh(wallet, bump, human_verified, now),
            profile.tiger_score == BASE_SCORE,
            profile.tier == Tier::Silver,
            profile.total_loans == 0 && profile.successful_repayments == 0 && profile.defaults == 0,
            profile.total_borrowed == 0 && profile.total_repaid == 0 && profile.outstanding_debt
                == 0,
            profile.wf(),
            profile.debt_is_exact(),
    {
        UserProfile {
            wallet,
            tiger_score: BASE_SCORE,
            tier: Tier::Silver,
            human_verified,
            total_loans: 0,
            successful_repayments: 0,
            defaults: 0,
            total_borrowed: 0,
            total_repaid: 0,
            outstanding_debt: 0,
            created_at: now,
            last_score_update: now,
            bump,
        }
    }

    /// Sets score and tier to the supplied values and stamps the update time.
    /// A score above `MAX_SCORE` is rejected with `InvalidScore`.  The tier is
    /// not checked against the score.
    pub fn update_score(&mut self, new_score: u16, new_tier: Tier, now: i64) -> (outcome: Result<
        (),
        TigerTrustError,
    >)
        ensures
            match old(self).with_score(new_score, new_tier, now) {
                Ok(next) => outcome is Ok && *final(self) == next,
                Err(e) => outcome == Err::<(), TigerTrustError>(e) && *final(self) == *old(self),
            },
            new_score > MAX_SCORE ==> outcome == Err::<(), TigerTrustError>(
                TigerTrustError::InvalidScore,
            ) && *final(self) == *old(self),
            new_score <= MAX_SCORE ==> outcome is Ok && final(self).tiger_score == new_score
                && final(self).tier == new_tier && final(self).last_score_update == now,
            final(self).extends(*old(self)),
            outcome is Ok ==> final(self).tiger_score <= MAX_SCORE,
            old(self).wf() ==> final(self).wf(),
    {
        if new_score > MAX_SCORE {
            return Err(TigerTrustError::InvalidScore);
        }
        self.tiger_score = new_score;
        self.tier = new_tier;
        self.last_score_update = now;
        Ok(())
    }

    /// Counts one more loan and adds `amount` to the borrowed total and to
    /// the open debt.  Fails with `Overflow`, changing nothing, where any of
    /// the three would leave its integer range.
    pub fn record_loan(&mut self, amount: u64) -> (outcome: Result<(), TigerTrustError>)
        ensures
            match old(self).with_loan(amount) {
                Ok(next) => outcome is Ok && *final(self) == next,
                Err(e) => outcome == Err::<(), TigerTrustError>(e) && *final(self) == *old(self),
            },
            outcome is Ok ==> final(self).total_loans == old(self).total_loans + 1
                && final(self).total_borrowed == old(self).total_borrowed + amount
                && final(self).outstanding_debt == old(self).outstanding_debt + amount,
            final(self).extends(*old(self)),
            old(self).wf() ==> final(self).wf(),
            old(self).debt_is_exact() ==> final(self).debt_is_exact(),
    {
        let loans = match self.total_loans.checked_add(1) {
            Some(n) => n,
            None => {
                return Err(TigerTrustError::Overflow);
            },
        };
        let borrowed = match self.total_borrowed.checked_add(amount) {
            Some(n) => n,
            None => {
                return Err(TigerTrustError::Overflow);
            },
        };
        let debt = match self.outstanding_debt.checked_add(amount) {
            Some(n) => n,
            None => {
                return Err(TigerTrustError::Overflow);
            },
        };
        self.total_loans = loans;
        self.total_borrowed = borrowed;
        self.outstanding_debt = debt;
        Ok(())
    }

    /// Counts one more default or one more repayment, adds `amount` to the
    /// repaid total and reduces the open debt by `amount`, stopping at zero.
    /// Fails with `Overflow`, changing nothing, where the counter or the
    /// repaid total would leave its integer range.  A repayment larger than
    /// the open debt is no failure.
    pub fn record_repayment(&mut self, amount: u64, is_default: bool) -> (outcome: Result<
        (),
        TigerTrustError,
    >)
        ensures
            match old(self).with_repayment(amount, is_default) {
                Ok(next) => outcome is Ok && *final(self) == next,
                Err(e) => outcome == Err::<(), TigerTrustError>(e) && *final(self) == *old(self),
            },
            outcome is Ok ==> final(self).total_repaid == old(self).total_repaid + amount
                && final(self).outstanding_debt == old(self).debt_after(amount),
            outcome is Ok && amount > old(self).outstanding_debt ==> final(self).outstanding_debt
                == 0,
            final(self).outstanding_debt <= old(self).outstanding_debt,
            final(self).extends(*old(self)),
            old(self).wf() ==> final(self).wf(),
            old(self).debt_is_exact() && amount <= old(self).outstanding_debt
                ==> final(self).debt_is_exact(),
    {
        let mut defaults = self.defaults;
        let mut repayments = self.successful_repayments;
        if is_default {
            defaults = match self.defaults.checked_add(1) {
                Some(n) => n,
                None => {
                    return Err(TigerTrustError::Overflow);
                },
            };
        } else {
            repayments = match self.successful_repayments.checked_add(1) {
                Some(n) => n,
                None => {
                    return Err(TigerTrustError::Overflow);
                },
            };
        }
        let repaid = match self.total_repaid.checked_add(amount) {
            Some(n) => n,
            None => {
                return Err(TigerTrustError::Overflow);
            },
        };
        self.defaults = defaults;
        self.successful_repayments = repayments;
        self.total_repaid = repaid;
        self.outstanding_debt = self.outstanding_debt.saturating_sub(amount);
        Ok(())
    }

    /// Sets the verification flag.  Nothing else changes.
    pub fn update_verification(&mut self, verified: bool)
        ensures
            *final(self) == old(self).with_verification(verified),
            final(self).human_verified == verified,
            final(self).extends(*old(self)),
            old(self).wf() ==> final(self).wf(),
    {
        self.human_verified = verified;
    }
}

/// The sum of `amounts`.
pub open spec fn total(amounts: Seq<u64>) -> nat
    decreases amounts.len(),
{
    if amounts.len() == 0 {
        0
    } else {
        total(amounts.drop_last()) + amounts.last() as nat
    }
}

/// One operation on an existing record, with its input.
pub enum Step {
    Score { new_score: u16, new_tier: Tier, now: i64 },
    Loan { amount: u64 },
    Repayment { amount: u64, is_default: bool },
    Verification { verified: bool },
}

impl UserProfile {
    /// The record after the loans `amounts` were recorded one after the
    /// other, or the failure of the first that was rejected.
    pub open spec fn with_loans(self, amounts: Seq<u64>) -> Result<UserProfile, TigerTrustError>
        decreases amounts.len(),
    {
        if amounts.len() == 0 {
            Ok(self)
        } else {
            match self.with_loans(amounts.drop_last()) {
                Ok(earlier) => earlier.with_loan(amounts.last()),
                Err(e) => Err(e),
            }
        }
    }

    /// The record after one step.  A rejected step leaves the record as it was.
    pub open spec fn after(self, step: Step) -> UserProfile {
        let outcome = match step {
            Step::Score { new_score, new_tier, now } => self.with_score(new_score, new_tier, now),
            Step::Loan { amount } => self.with_loan(amount),
            Step::Repayment { amount, is_default } => self.with_repayment(amount, is_default),
            Step::Verification { verified } => Ok(self.with_verification(verified)),
        };
        match outcome {
            Ok(next) => next,
            Err(_) => self,
        }
    }

    /// The record after the steps `steps`, taken one after the other.
    pub open spec fn after_all(self, steps: Seq<Step>) -> UserProfile
        decreases steps.len(),
    {
        if steps.len() == 0 {
            self
        } else {
            self.after_all(steps.drop_last()).after(steps.last())
        }
    }

    /// Whether `step` is a repayment of more than the open debt.
    pub open spec fn overpays(self, step: Step) -> bool {
        step matches Step::Repayment { amount, .. } && amount > self.outstanding_debt
    }

    /// Whether none of `steps`, taken one after the other, repays more than
    /// the debt that is open when it is taken.
    pub open spec fn never_overpays(self, steps: Seq<Step>) -> bool
        decreases steps.len(),
    {
        steps.len() == 0 || (self.never_overpays(steps.drop_last()) && !self.after_all(
            steps.drop_last(),
        ).overpays(steps.last()))
    }

    /// A sequence of loans is accepted exactly when the loan counter, the
    /// borrowed total and the open debt can hold the number and the sum of
    /// the loans.  The counter then has grown by the number of loans, both
    /// accumulators by their sum, and nothing else has changed.
    pub proof fn law_loans_accumulate(self, amounts: Seq<u64>)
        ensures
            self.with_loans(amounts) is Ok <==> self.total_loans + amounts.len() <= u32::MAX
                && self.total_borrowed + total(amounts) <= u64::MAX && self.outstanding_debt
                + total(amounts) <= u64::MAX,
            self.with_loans(amounts) is Err ==> self.with_loans(amounts) == Err::<
                UserProfile,
                TigerTrustError,
            >(TigerTrustError::Overflow),
            self.with_loans(amounts) matches Ok(end) ==> end == (UserProfile {
                total_loans: (self.total_loans + amounts.len()) as u32,
                total_borrowed: (self.total_borrowed + total(amounts)) as u64,
                outstanding_debt: (self.outstanding_debt + total(amounts)) as u64,
                ..self
            }),
        decreases amounts.len(),
    {
        if amounts.len() > 0 {
            self.law_loans_accumulate(amounts.drop_last());
        }
    }

    /// On a new record, after any accepted sequence of loans, the borrowed
    /// total is the sum of the loans and the loan counter is their number.
    pub proof fn law_loans_on_new_record(
        wallet: Identity,
        bump: u8,
        human_verified: bool,
        now: i64,
        amounts: Seq<u64>,
    )
        ensures
            UserProfile::fresh(wallet, bump, human_verified, now).with_loans(amounts) matches Ok(
                end,
            ) ==> end.total_borrowed == total(amounts) && end.total_loans == amounts.len()
                && end.outstanding_debt == total(amounts),
    {
        UserProfile::fresh(wallet, bump, human_verified, now).law_loans_accumulate(amounts);
    }

    /// A repayment that is no default and exceeds the open debt is accepted
    /// and leaves no debt, unless the repayment counter or the repaid total
    /// would leave its integer range.
    pub proof fn law_overpayment_clears_debt(self, amount: u64)
        requires
            amount > self.outstanding_debt,
            self.successful_repayments < u32::MAX,
            self.total_repaid + amount <= u64::MAX,
        ensures
            self.with_repayment(amount, false) is Ok,
            self.with_repayment(amount, false)->Ok_0.outstanding_debt == 0,
    {
    }

    /// A repayment is never rejected on account of the debt: it fails only
    /// where its counter or the repaid total would leave its integer range.
    pub proof fn law_repayment_fails_only_on_overflow(self, amount: u64, is_default: bool)
        ensures
            self.with_repayment(amount, is_default) is Err <==> (if is_default {
                self.defaults == u32::MAX
            } else {
                self.successful_repayments == u32::MAX
            }) || self.total_repaid + amount > u64::MAX,
    {
    }

    /// As long as no repayment exceeds the debt that it meets, the open debt
    /// is what was borrowed minus what was repaid.
    pub proof fn law_debt_stays_exact(self, steps: Seq<Step>)
        requires
            self.debt_is_exact(),
            self.never_overpays(steps),
        ensures
            self.after_all(steps).debt_is_exact(),
        decreases steps.len(),
    {
        if steps.len() > 0 {
            self.law_debt_stays_exact(steps.drop_last());
        }
    }

    /// Whatever steps are taken, accepted or rejected, a well-formed record
    /// stays well-formed, its owner, proof and creation time stay fixed, and
    /// its counters and totals never shrink.
    pub proof fn law_steps_keep_invariants(self, steps: Seq<Step>)
        ensures
            self.after_all(steps).extends(self),
            self.wf() ==> self.after_all(steps).wf(),
        decreases steps.len(),
    {
        if steps.len() > 0 {
            self.law_steps_keep_invariants(steps.drop_last());
        }
    }
}

} // verus!
