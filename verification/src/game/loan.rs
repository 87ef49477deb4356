//! Forced payments: what a player owes is paid from cash or, where cash
//! falls short, from a loan in steps of $5,000 of which the bank keeps a
//! fifth.

use crate::config::{LOAN_INCREMENT, MAX_DEBT};
use crate::error::GameError;
use crate::log::LogEntry;
use crate::models::multiplier::round_half_away;
use crate::models::player::{fits_i32, Player};
use vstd::prelude::*;

verus! {

/// The loan that covers a shortfall: the shortfall rounded up to the next
/// multiple of $5,000.
pub open spec fn loan_for(shortfall: int) -> int
    recommends
        shortfall > 0,
{
    ((shortfall + (LOAN_INCREMENT - 1)) / (LOAN_INCREMENT as int)) * LOAN_INCREMENT
}

/// The bank's fee on a loan: a fifth of it, rounded.
pub open spec fn fee_for(loan: int) -> int {
    round_half_away(loan * 20, 100)
}

/// Ten percent of a debt, rounded to the dollar, halves away from zero.
pub open spec fn interest_on(debt: int) -> int {
    round_half_away(debt, 10)
}

/// Computes `interest_on(debt)`.
pub fn interest_due(debt: i32) -> (r: i32)
    ensures
        r == interest_on(debt as int),
{
    let d: i64 = debt as i64;
    if d >= 0 {
        ((2 * d + 10) / 20) as i32
    } else {
        let q: i64 = (2 * (-d) + 10) / 20;
        (-q) as i32
    }
}

/// What a forced payment of `required` does to the player `p`: the player
/// afterwards, the entries logged, and the result.
///
/// * Cash that covers the amount pays it.
/// * Otherwise the shortfall is borrowed in steps of $5,000; the bank keeps
///   its fee, the full loan becomes debt. A loan that would lift the debt
///   over $50,000 is refused and nothing changes.
pub open spec fn loan_outcome(p: Player, required: i32) -> (
    Player,
    Seq<LogEntry>,
    Result<(), GameError>,
) {
    if p.cash >= required {
        if fits_i32(p.cash - required) {
            (
                Player { cash: (p.cash - required) as i32, ..p },
                seq![
                    LogEntry::Paid {
                        name: p.name,
                        amount: required,
                        cash_left: (p.cash - required) as i32,
                    },
                ],
                Ok(()),
            )
        } else {
            (p, Seq::empty(), Err(GameError::AmountOutOfRange))
        }
    } else {
        let shortfall = required - p.cash;
        let loan = loan_for(shortfall);
        let fee = fee_for(loan);
        let received = loan - fee;
        if p.debt + loan > MAX_DEBT {
            (
                p,
                seq![LogEntry::DebtLimitHit { name: p.name, required }],
                Err(GameError::DebtLimitExceeded { player_id: p.id, required }),
            )
        } else if !fits_i32(loan) {
            (p, Seq::empty(), Err(GameError::AmountOutOfRange))
        } else {
            (
                Player {
                    cash: (p.cash + received - required) as i32,
                    debt: (p.debt + loan) as i32,
                    ..p
                },
                seq![
                    LogEntry::TookLoan {
                        loan: loan as i32,
                        fee: fee as i32,
                        received: received as i32,
                        debt: (p.debt + loan) as i32,
                    },
                ],
                Ok(()),
            )
        }
    }
}

/// No forced payment lifts a debt over the ceiling that was not over it, and
/// a refused payment changes nothing.
pub proof fn lemma_debt_ceiling(p: Player, required: i32)
    ensures
        p.debt <= MAX_DEBT ==> loan_outcome(p, required).0.debt <= MAX_DEBT,
        loan_outcome(p, required).2.is_err() ==> loan_outcome(p, required).0 == p,
        loan_outcome(p, required).2 matches Err(e) ==> e == GameError::AmountOutOfRange || e == (
        GameError::DebtLimitExceeded { player_id: p.id, required }),
{
}

/// The loan for a shortfall is the least multiple of $5,000 that covers it,
/// and the bank's fee is a fifth of the loan.
pub proof fn lemma_loan_is_least_step(shortfall: int)
    requires
        shortfall > 0,
    ensures
        loan_for(shortfall) > 0,
        loan_for(shortfall) % 5000 == 0,
        loan_for(shortfall) >= shortfall,
        loan_for(shortfall) - shortfall < 5000,
        fee_for(loan_for(shortfall)) * 5 == loan_for(shortfall),
{
    let units = (shortfall + 4999) / 5000;
    assert(loan_for(shortfall) == units * 5000);
    assert((2 * (units * 5000 * 20) + 100) / 200 == units * 1000);
}

/// When a forced payment is made and what it comes to. Cash that covers the
/// amount pays it and no debt is made. Else the payment is refused exactly
/// where the loan for the shortfall would lift the debt over $50,000, and
/// nothing changes; where it is made, the whole loan becomes debt, and cash
/// grows by the loan less the fee and shrinks by the amount.
pub proof fn lemma_forced_payment(p: Player, required: i32)
    ensures
        p.cash >= required && fits_i32(p.cash - required) ==> loan_outcome(p, required).2.is_ok()
            && loan_outcome(p, required).0 == (Player {
            cash: (p.cash - required) as i32,
            ..p
        }),
        p.cash < required ==> (loan_outcome(p, required).2 == Err::<(), GameError>(
            GameError::DebtLimitExceeded { player_id: p.id, required },
        ) <==> p.debt + loan_for(required - p.cash) > MAX_DEBT),
        p.cash < required && loan_outcome(p, required).2.is_ok() ==> loan_outcome(p, required).0
            == (Player {
            cash: (p.cash + loan_for(required - p.cash) - fee_for(loan_for(required - p.cash))
                - required) as i32,
            debt: (p.debt + loan_for(required - p.cash)) as i32,
            ..p
        }) && loan_outcome(p, required).0.debt == p.debt + loan_for(required - p.cash)
            && loan_outcome(p, required).0.cash == p.cash + loan_for(required - p.cash) - fee_for(
            loan_for(required - p.cash),
        ) - required,
        loan_outcome(p, required).2.is_err() ==> loan_outcome(p, required).0 == p,
{
    if p.cash < required {
        lemma_loan_is_least_step(required - p.cash);
    }
}

/// The player after a run of forced payments, one after the other, each
/// made or refused as `loan_outcome` says.
pub open spec fn after_payments(p: Player, amounts: Seq<i32>) -> Player
    decreases amounts.len(),
{
    if amounts.len() == 0 {
        p
    } else {
        loan_outcome(after_payments(p, amounts.drop_last()), amounts.last()).0
    }
}

/// No run of forced payments lifts a debt over the ceiling that was not
/// over it.
pub proof fn lemma_payments_keep_ceiling(p: Player, amounts: Seq<i32>)
    requires
        p.debt <= MAX_DEBT,
    ensures
        after_payments(p, amounts).debt <= MAX_DEBT,
    decreases amounts.len(),
{
    if amounts.len() > 0 {
        lemma_payments_keep_ceiling(p, amounts.drop_last());
        lemma_debt_ceiling(after_payments(p, amounts.drop_last()), amounts.last());
    }
}

impl Player {
    /// Pays `required`, from cash or with a forced loan, and logs what was
    /// done. A refused payment leaves the player as it was.
    pub fn pay_or_borrow(&mut self, required: i32, logs: &mut Vec<LogEntry>) -> (r: Result<
        (),
        GameError,
    >)
        ensures
            *final(self) == loan_outcome(*old(self), required).0,
            final(logs)@ =~= old(logs)@ + loan_outcome(*old(self), required).1,
            r == loan_outcome(*old(self), required).2,
            r.is_err() ==> *final(self) == *old(self),
            old(self).debt <= MAX_DEBT ==> final(self).debt <= MAX_DEBT,
    {
        if self.cash >= required {
            let left: i64 = self.cash as i64 - required as i64;
            if left > i32::MAX as i64 {
                return Err(GameError::AmountOutOfRange);
            }
            self.cash = left as i32;
            logs.push(
                LogEntry::Paid { name: self.name.clone(), amount: required, cash_left: self.cash },
            );
            return Ok(());
        }
        let shortfall: i64 = required as i64 - self.cash as i64;
        let units: i64 = (shortfall + 4999) / 5000;
        let loan: i64 = units * 5000;
        let fee: i64 = loan / 5;
        assert(shortfall > 0 && units >= 1 && loan == 5000 * units && fee == 1000 * units);
        assert((2 * (loan * 20) + 100) / 200 == 1000 * units);
        assert(fee == fee_for(loan as int));
        assert(loan == loan_for(shortfall as int));
        let received: i64 = loan - fee;
        if self.debt as i64 + loan > MAX_DEBT as i64 {
            logs.push(LogEntry::DebtLimitHit { name: self.name.clone(), required });
            return Err(GameError::DebtLimitExceeded { player_id: self.id, required });
        }
        if loan > i32::MAX as i64 {
            return Err(GameError::AmountOutOfRange);
        }
        self.cash = (self.cash as i64 + received - required as i64) as i32;
        self.debt = (self.debt as i64 + loan) as i32;
        logs.push(
            LogEntry::TookLoan {
                loan: loan as i32,
                fee: fee as i32,
                received: received as i32,
                debt: self.debt,
            },
        );
        Ok(())
    }
}

} // verus!
