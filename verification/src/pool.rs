//! The pool as the accounting rules see it: the custody balance and the
//! shares outstanding against it, as unbounded numbers.
//!
//! Every contract of the engine is stated over this model, and so are the
//! fairness laws.

use crate::error::ErrorCode;
use vstd::prelude::*;

verus! {

/// A pool of underlying asset and the shares that lay claim to it.
pub struct Pool {
    /// Underlying asset held in custody.
    pub balance: nat,
    /// Shares outstanding.
    pub shares: nat,
}

/// What a caller may ask of the vault.
pub enum Operation {
    /// Hand over `amount` of the underlying asset for shares.
    Deposit { amount: nat },
    /// Hand back `shares` for underlying asset.
    Withdraw { shares: nat },
}

impl Pool {
    /// The pool that holds `balance` of the asset against `shares` shares.
    pub open spec fn of(balance: u64, shares: u64) -> Pool {
        Pool { balance: balance as nat, shares: shares as nat }
    }

    /// Shares minted for a deposit of `amount`.  The first liquidity is priced
    /// one to one; after that a deposit buys shares at the current price,
    /// rounded down.
    pub open spec fn shares_for(self, amount: nat) -> nat {
        if self.shares == 0 || self.balance == 0 {
            amount
        } else {
            amount * self.shares / self.balance
        }
    }

    /// Underlying asset released for `shares`, at the current price, rounded
    /// down.
    pub open spec fn amount_for(self, shares: nat) -> nat {
        if self.shares == 0 {
            0
        } else {
            shares * self.balance / self.shares
        }
    }

    /// Why a deposit of `amount` is rejected, if it is: the shares
    /// outstanding must stay within 64 bits.
    pub open spec fn deposit_rejection(self, amount: nat) -> Option<ErrorCode> {
        if self.shares + self.shares_for(amount) > u64::MAX {
            Some(ErrorCode::MathOverflow)
        } else {
            None
        }
    }

    /// Why a withdrawal of `shares` is rejected, if it is.  The conditions are
    /// tested in this order, and the first that holds names the rejection.
    pub open spec fn withdraw_rejection(self, shares: nat) -> Option<ErrorCode> {
        if shares == 0 {
            Some(ErrorCode::ZeroAmount)
        } else if self.shares == 0 {
            Some(ErrorCode::ZeroShares)
        } else if self.balance == 0 {
            Some(ErrorCode::EmptyPool)
        } else if shares > self.shares {
            Some(ErrorCode::MathOverflow)
        } else {
            None
        }
    }

    /// The pool once a deposit of `amount` has been carried out.
    pub open spec fn after_deposit(self, amount: nat) -> Pool {
        Pool { balance: self.balance + amount, shares: self.shares + self.shares_for(amount) }
    }

    /// The pool once a withdrawal of `shares` has been carried out.
    pub open spec fn after_withdraw(self, shares: nat) -> Pool {
        Pool {
            balance: (self.balance - self.amount_for(shares)) as nat,
            shares: (self.shares - shares) as nat,
        }
    }

    /// The pool after one operation.  A rejected operation leaves it as it
    /// was.
    pub open spec fn apply(self, op: Operation) -> Pool {
        match op {
            Operation::Deposit { amount } => if self.deposit_rejection(amount) is None {
                self.after_deposit(amount)
            } else {
                self
            },
            Operation::Withdraw { shares } => if self.withdraw_rejection(shares) is None {
                self.after_withdraw(shares)
            } else {
                self
            },
        }
    }

    /// The pool after a sequence of operations, carried out first to last.
    pub open spec fn run(self, ops: Seq<Operation>) -> Pool
        decreases ops.len(),
    {
        if ops.len() == 0 {
            self
        } else {
            self.run(ops.drop_last()).apply(ops.last())
        }
    }

    /// Whether a share of this pool is worth at least what a share of
    /// `earlier` was worth: `self.balance / self.shares >= earlier.balance /
    /// earlier.shares`, compared without division.
    pub open spec fn price_at_least(self, earlier: Pool) -> bool {
        self.balance * earlier.shares >= earlier.balance * self.shares
    }
}

} // verus!
